//! The token cache: one token per client id, kept as the content of one
//! file that is read and rewritten as a whole.

use vstd::prelude::*;
use crate::token_info::{TokenInfo, TokenInfoView};

verus! {

/// The version written into a cache file that is created from nothing.
pub const CACHE_VERSION: u32 = 1;

/// The token cached for one client id.
#[derive(Clone, Debug, PartialEq, Eq)]
pub struct CacheEntry {
    pub client_id: String,
    pub token_info: TokenInfo,
}

/// The whole content of the cache file.
#[derive(Clone, Debug, PartialEq, Eq)]
pub struct TokenCacheFile {
    pub version: u32,
    pub data: Vec<CacheEntry>,
}

/// Whether no client id occurs twice among `entries`.
pub open spec fn distinct_ids(entries: Seq<CacheEntry>) -> bool {
    forall|i: int, j: int|
        0 <= i < j < entries.len() ==> (#[trigger] entries[i]).client_id@ != (
        #[trigger] entries[j]).client_id@
}

/// Whether `entries` holds a token for `id` at position `i`.
pub open spec fn holds_at(entries: Seq<CacheEntry>, id: Seq<char>, i: int) -> bool {
    0 <= i < entries.len() && entries[i].client_id@ == id
}

/// The tokens of `entries`, by client id.
pub open spec fn tokens_of(entries: Seq<CacheEntry>) -> Map<Seq<char>, TokenInfoView> {
    Map::new(
        |id: Seq<char>| exists|i: int| holds_at(entries, id, i),
        |id: Seq<char>| entries[choose|i: int| holds_at(entries, id, i)].token_info@,
    )
}

/// With distinct ids, the token found for an id is the one of the only
/// entry that carries the id.
pub proof fn lemma_tokens_of_entry(entries: Seq<CacheEntry>, i: int)
    requires
        distinct_ids(entries),
        0 <= i < entries.len(),
    ensures
        tokens_of(entries).dom().contains(entries[i].client_id@),
        tokens_of(entries)[entries[i].client_id@] == entries[i].token_info@,
{
    let id = entries[i].client_id@;
    assert(holds_at(entries, id, i));
    let k = choose|k: int| holds_at(entries, id, k);
    if k < i {
        assert(entries[k].client_id@ != entries[i].client_id@);
    } else if i < k {
        assert(entries[i].client_id@ != entries[k].client_id@);
    }
}

impl View for TokenCacheFile {
    type V = Map<Seq<char>, TokenInfoView>;

    open spec fn view(&self) -> Map<Seq<char>, TokenInfoView> {
        tokens_of(self.data@)
    }
}

impl TokenCacheFile {
    /// A cache file is well formed when each client id has one entry at
    /// most.
    pub open spec fn wf(&self) -> bool {
        distinct_ids(self.data@)
    }

    /// The content of a cache that holds nothing.
    pub fn empty() -> (r: TokenCacheFile)
        ensures
            r.wf(),
            r.version == CACHE_VERSION,
            r.data@.len() == 0,
            r@ == Map::<Seq<char>, TokenInfoView>::empty(),
    {
        let r = TokenCacheFile { version: CACHE_VERSION, data: Vec::new() };
        proof {
            assert(r@ =~= Map::<Seq<char>, TokenInfoView>::empty());
        }
        r
    }

    /// Where the entry of `client_id` stands, if there is one.
    pub fn position(&self, client_id: &String) -> (r: Option<usize>)
        ensures
            r matches Some(i) ==> holds_at(self.data@, client_id@, i as int),
            r is None ==> forall|i: int| !holds_at(self.data@, client_id@, i),
            r is Some <==> self@.dom().contains(client_id@),
    {
        let mut i: usize = 0;
        while i < self.data.len()
            invariant
                i <= self.data.len(),
                forall|k: int| 0 <= k < i ==> !holds_at(self.data@, client_id@, k),
            decreases self.data.len() - i,
        {
            if self.data[i].client_id == *client_id {
                assert(holds_at(self.data@, client_id@, i as int));
                return Some(i);
            }
            i += 1;
        }
        None
    }

    /// The token cached for `client_id`.
    pub fn get(&self, client_id: &String) -> (r: Option<TokenInfo>)
        requires
            self.wf(),
        ensures
            r is Some <==> self@.dom().contains(client_id@),
            r is Some ==> r->0@ == self@[client_id@],
    {
        match self.position(client_id) {
            Some(i) => {
                proof {
                    lemma_tokens_of_entry(self.data@, i as int);
                }
                Some(self.data[i].token_info.duplicate())
            },
            None => None,
        }
    }

    /// Stores `token_info` for `client_id`, in place of what was stored for
    /// it before. Every other entry stays as it is.
    pub fn insert(&mut self, client_id: String, token_info: TokenInfo)
        requires
            old(self).wf(),
        ensures
            final(self).wf(),
            final(self).version == old(self).version,
            final(self)@ == old(self)@.insert(client_id@, token_info@),
    {
        let ghost before = self.data@;
        let entry = CacheEntry { client_id, token_info };
        match self.position(&entry.client_id) {
            Some(i) => {
                self.data[i] = entry;
                proof {
                    let after = self.data@;
                    assert(after == before.update(i as int, entry));
                    assert forall|a: int, b: int| 0 <= a < b < after.len() implies (
                    #[trigger] after[a]).client_id@ != (#[trigger] after[b]).client_id@ by {
                        assert(after[a].client_id@ == before[a].client_id@);
                        assert(after[b].client_id@ == before[b].client_id@);
                    }
                    lemma_insert_view(before, after, i as int, entry);
                }
            },
            None => {
                self.data.push(entry);
                proof {
                    let after = self.data@;
                    assert(after == before.push(entry));
                    assert forall|a: int, b: int| 0 <= a < b < after.len() implies (
                    #[trigger] after[a]).client_id@ != (#[trigger] after[b]).client_id@ by {
                        if b == before.len() {
                            assert(!holds_at(before, entry.client_id@, a));
                        } else {
                            assert(after[a] == before[a] && after[b] == before[b]);
                        }
                    }
                    lemma_insert_view(before, after, before.len() as int, entry);
                }
            },
        }
    }

    /// Removes what is stored for `client_id`, if anything. Every other
    /// entry stays as it is.
    pub fn remove(&mut self, client_id: &String)
        requires
            old(self).wf(),
        ensures
            final(self).wf(),
            final(self).version == old(self).version,
            final(self)@ == old(self)@.remove(client_id@),
            !old(self)@.dom().contains(client_id@) ==> final(self).data@ == old(self).data@,
    {
        let ghost before = self.data@;
        match self.position(client_id) {
            Some(i) => {
                self.data.remove(i);
                proof {
                    lemma_remove_view(before, self.data@, i as int);
                }
            },
            None => {
                proof {
                    assert(self@ =~= self@.remove(client_id@));
                }
            },
        }
    }
}

/// Writing `entry` at position `i` of a list with distinct ids, over the
/// entry of the same id or behind the last entry, changes the tokens as an
/// insertion into the map does.
pub proof fn lemma_insert_view(
    before: Seq<CacheEntry>,
    after: Seq<CacheEntry>,
    i: int,
    entry: CacheEntry,
)
    requires
        distinct_ids(before),
        distinct_ids(after),
        0 <= i <= before.len(),
        i < before.len() ==> before[i].client_id@ == entry.client_id@ && after == before.update(
            i,
            entry,
        ),
        i == before.len() ==> after == before.push(entry),
    ensures
        tokens_of(after) == tokens_of(before).insert(entry.client_id@, entry.token_info@),
{
    let target = tokens_of(before).insert(entry.client_id@, entry.token_info@);
    assert forall|id: Seq<char>| tokens_of(after).dom().contains(id) <==> target.dom().contains(
        id,
    ) by {
        if tokens_of(after).dom().contains(id) {
            let k = choose|k: int| holds_at(after, id, k);
            if k != i {
                assert(holds_at(before, id, k));
            }
        }
        if target.dom().contains(id) {
            if id == entry.client_id@ {
                assert(holds_at(after, id, i));
            } else {
                let k = choose|k: int| holds_at(before, id, k);
                assert(holds_at(after, id, k));
            }
        }
    }
    assert forall|id: Seq<char>| tokens_of(after).dom().contains(id) implies tokens_of(after)[id]
        == target[id] by {
        let k = choose|k: int| holds_at(after, id, k);
        lemma_tokens_of_entry(after, k);
        if k != i {
            assert(holds_at(before, id, k));
            lemma_tokens_of_entry(before, k);
            assert(after[k] == before[k]);
            if id == entry.client_id@ {
                assert(after[i].client_id@ == id);
                if k < i {
                    assert(after[k].client_id@ != after[i].client_id@);
                } else {
                    assert(after[i].client_id@ != after[k].client_id@);
                }
            }
        }
    }
    assert(tokens_of(after) =~= target);
}

/// Taking the entry at position `i` out of a list with distinct ids
/// changes the tokens as a removal from the map does.
pub proof fn lemma_remove_view(before: Seq<CacheEntry>, after: Seq<CacheEntry>, i: int)
    requires
        distinct_ids(before),
        0 <= i < before.len(),
        after == before.remove(i),
    ensures
        distinct_ids(after),
        tokens_of(after) == tokens_of(before).remove(before[i].client_id@),
{
    let gone = before[i].client_id@;
    let target = tokens_of(before).remove(gone);
    assert forall|a: int, b: int| 0 <= a < b < after.len() implies (#[trigger] after[a]).client_id@
        != (#[trigger] after[b]).client_id@ by {
        let a0 = if a < i {
            a
        } else {
            a + 1
        };
        let b0 = if b < i {
            b
        } else {
            b + 1
        };
        assert(after[a] == before[a0] && after[b] == before[b0]);
        assert(before[a0].client_id@ != before[b0].client_id@);
    }
    assert forall|id: Seq<char>| tokens_of(after).dom().contains(id) <==> target.dom().contains(
        id,
    ) by {
        if tokens_of(after).dom().contains(id) {
            let k = choose|k: int| holds_at(after, id, k);
            let k0 = if k < i {
                k
            } else {
                k + 1
            };
            assert(after[k] == before[k0]);
            assert(holds_at(before, id, k0));
            if k0 < i {
                assert(before[k0].client_id@ != before[i].client_id@);
            } else {
                assert(before[i].client_id@ != before[k0].client_id@);
            }
        }
        if target.dom().contains(id) {
            let k0 = choose|k: int| holds_at(before, id, k);
            let k = if k0 < i {
                k0
            } else {
                k0 - 1
            };
            assert(after[k] == before[k0]);
            assert(holds_at(after, id, k));
        }
    }
    assert forall|id: Seq<char>| tokens_of(after).dom().contains(id) implies tokens_of(after)[id]
        == target[id] by {
        let k = choose|k: int| holds_at(after, id, k);
        let k0 = if k < i {
            k
        } else {
            k + 1
        };
        assert(after[k] == before[k0]);
        lemma_tokens_of_entry(after, k);
        lemma_tokens_of_entry(before, k0);
    }
    assert(tokens_of(after) =~= target);
}

/// The tokens that result from storing the entries of `entries` one after
/// another, a later entry replacing an earlier one of the same id.
pub open spec fn merged(entries: Seq<CacheEntry>) -> Map<Seq<char>, TokenInfoView>
    decreases entries.len(),
{
    if entries.len() == 0 {
        Map::empty()
    } else {
        merged(entries.drop_last()).insert(entries.last().client_id@, entries.last().token_info@)
    }
}

/// Where no id occurs twice, storing the entries one after another yields
/// exactly the entries.
pub proof fn lemma_merged_distinct(entries: Seq<CacheEntry>)
    requires
        distinct_ids(entries),
    ensures
        merged(entries) == tokens_of(entries),
    decreases entries.len(),
{
    if entries.len() == 0 {
        assert(tokens_of(entries) =~= Map::<Seq<char>, TokenInfoView>::empty());
    } else {
        let front = entries.drop_last();
        assert forall|i: int, j: int| 0 <= i < j < front.len() implies (
        #[trigger] front[i]).client_id@ != (#[trigger] front[j]).client_id@ by {
            assert(front[i] == entries[i] && front[j] == entries[j]);
        }
        lemma_merged_distinct(front);
        assert(entries =~= front.push(entries.last()));
        lemma_insert_view(front, entries, front.len() as int, entries.last());
    }
}

/// The token cache of one process. It holds the content of the cache file
/// from the moment the file was read to the moment it is written back,
/// and remembers whether a store or a clearing still has to be written.
#[derive(Debug, PartialEq, Eq)]
pub struct FileState {
    file: TokenCacheFile,
    unsaved: bool,
}

impl View for FileState {
    type V = Map<Seq<char>, TokenInfoView>;

    closed spec fn view(&self) -> Map<Seq<char>, TokenInfoView> {
        self.file@
    }
}

impl FileState {
    #[verifier::type_invariant]
    spec fn inv(&self) -> bool {
        self.file.wf()
    }

    /// The version that the cache file carries.
    pub closed spec fn version(&self) -> u32 {
        self.file.version
    }

    /// Whether something was stored or cleared since the file was last
    /// read or written. Every store and every clearing counts, also one
    /// that leaves the content as it was.
    pub closed spec fn unsaved(&self) -> bool {
        self.unsaved
    }

    /// Takes over what was read from the cache file. A file that is
    /// missing or cannot be read counts as an empty cache; where a file
    /// names a client id twice, the later entry counts.
    pub fn new(loaded: Option<TokenCacheFile>) -> (r: FileState)
        ensures
            !r.unsaved(),
            loaded is None ==> r@ == Map::<Seq<char>, TokenInfoView>::empty() && r.version()
                == CACHE_VERSION,
            loaded matches Some(file) ==> r@ == merged(file.data@) && r.version() == file.version,
            loaded matches Some(file) ==> (file.wf() ==> r@ == file@),
    {
        match loaded {
            None => FileState { file: TokenCacheFile::empty(), unsaved: false },
            Some(file) => {
                let mut clean = TokenCacheFile { version: file.version, data: Vec::new() };
                proof {
                    assert(clean@ =~= Map::<Seq<char>, TokenInfoView>::empty());
                    assert(file.data@.take(0) =~= Seq::<CacheEntry>::empty());
                }
                let mut i: usize = 0;
                while i < file.data.len()
                    invariant
                        i <= file.data.len(),
                        clean.wf(),
                        clean.version == file.version,
                        clean@ == merged(file.data@.take(i as int)),
                    decreases file.data.len() - i,
                {
                    proof {
                        assert(file.data@.take(i + 1).drop_last() =~= file.data@.take(i as int));
                    }
                    clean.insert(file.data[i].client_id.clone(), file.data[i].token_info.duplicate());
                    i += 1;
                }
                proof {
                    assert(file.data@.take(file.data.len() as int) =~= file.data@);
                    if file.wf() {
                        lemma_merged_distinct(file.data@);
                    }
                }
                FileState { file: clean, unsaved: false }
            },
        }
    }

    /// What is to be written back to the cache file.
    pub fn contents(&self) -> (r: &TokenCacheFile)
        ensures
            r.wf(),
            r@ == self@,
            r.version == self.version(),
    {
        proof {
            use_type_invariant(self);
        }
        &self.file
    }

    /// Tells whether the content has to be written to the cache file.
    pub fn needs_saving(&self) -> (r: bool)
        ensures
            r == self.unsaved(),
    {
        self.unsaved
    }

    /// Records that the content was written to the cache file.
    pub fn saved(&mut self)
        ensures
            !final(self).unsaved(),
            final(self)@ == old(self)@,
            final(self).version() == old(self).version(),
    {
        proof {
            use_type_invariant(&*self);
        }
        self.unsaved = false;
    }

    /// The token cached for `client_id`, if there is one.
    pub fn read_token_info(&self, client_id: &String) -> (r: Option<TokenInfo>)
        ensures
            r is Some <==> self@.dom().contains(client_id@),
            r is Some ==> r->0@ == self@[client_id@],
    {
        proof {
            use_type_invariant(self);
        }
        self.file.get(client_id)
    }

    /// Stores `token_info` for `client_id`, replacing what was cached for
    /// that id. No other id is touched.
    pub fn upsert_token_info(&mut self, client_id: String, token_info: TokenInfo)
        ensures
            final(self)@ == old(self)@.insert(client_id@, token_info@),
            final(self).version() == old(self).version(),
            final(self).unsaved(),
    {
        proof {
            use_type_invariant(&*self);
        }
        let mut file = TokenCacheFile::empty();
        core::mem::swap(&mut self.file, &mut file);
        file.insert(client_id, token_info);
        self.file = file;
        self.unsaved = true;
    }

    /// Forgets what is cached for `client_id`. Clearing an id that has no
    /// entry changes nothing.
    pub fn clear_token_info(&mut self, client_id: String)
        ensures
            final(self)@ == old(self)@.remove(client_id@),
            final(self).version() == old(self).version(),
            final(self).unsaved(),
            !old(self)@.dom().contains(client_id@) ==> final(self)@ == old(self)@,
    {
        proof {
            use_type_invariant(&*self);
        }
        let mut file = TokenCacheFile::empty();
        core::mem::swap(&mut self.file, &mut file);
        file.remove(&client_id);
        self.file = file;
        self.unsaved = true;
        proof {
            if !old(self)@.dom().contains(client_id@) {
                assert(old(self)@.remove(client_id@) =~= old(self)@);
            }
        }
    }
}

/// Reading an id right after storing a token for it yields that token,
/// whatever the cache held before.
pub proof fn lemma_upsert_then_read(
    cache: Map<Seq<char>, TokenInfoView>,
    client_id: Seq<char>,
    token_info: TokenInfoView,
)
    ensures
        cache.insert(client_id, token_info).dom().contains(client_id),
        cache.insert(client_id, token_info)[client_id] == token_info,
{
}

/// Clearing an id that has no entry leaves the cache as it was, and
/// clearing twice is the same as clearing once.
pub proof fn lemma_clear_is_idempotent(cache: Map<Seq<char>, TokenInfoView>, client_id: Seq<char>)
    ensures
        !cache.dom().contains(client_id) ==> cache.remove(client_id) == cache,
        cache.remove(client_id).remove(client_id) == cache.remove(client_id),
        Map::<Seq<char>, TokenInfoView>::empty().remove(client_id) == Map::<
            Seq<char>,
            TokenInfoView,
        >::empty(),
{
    assert(cache.remove(client_id).remove(client_id) =~= cache.remove(client_id));
    if !cache.dom().contains(client_id) {
        assert(cache.remove(client_id) =~= cache);
    }
    assert(Map::<Seq<char>, TokenInfoView>::empty().remove(client_id) =~= Map::<
        Seq<char>,
        TokenInfoView,
    >::empty());
}

/// Storing or clearing one id never changes what is cached for another.
pub proof fn lemma_clients_are_isolated(
    cache: Map<Seq<char>, TokenInfoView>,
    client_id: Seq<char>,
    token_info: TokenInfoView,
    other: Seq<char>,
)
    requires
        other != client_id,
    ensures
        cache.insert(client_id, token_info).dom().contains(other) == cache.dom().contains(other),
        cache.remove(client_id).dom().contains(other) == cache.dom().contains(other),
        cache.dom().contains(other) ==> cache.insert(client_id, token_info)[other] == cache[other]
            && cache.remove(client_id)[other] == cache[other],
{
}

/// Two tokens stored for two different ids are both there afterwards,
/// whatever is cleared for a third id: a cache filled with `a` and `b` and
/// then cleared of `missing` still holds both.
pub proof fn lemma_two_clients_survive_clear(
    cache: Map<Seq<char>, TokenInfoView>,
    a: Seq<char>,
    x: TokenInfoView,
    b: Seq<char>,
    y: TokenInfoView,
    missing: Seq<char>,
)
    requires
        a != b,
        missing != a,
        missing != b,
    ensures
        ({
            let end = cache.insert(a, x).insert(b, y).remove(missing);
            end.dom().contains(a) && end[a] == x && end.dom().contains(b) && end[b] == y
        }),
{
}

/// Two writers that store tokens for different ids, one after the other on
/// the same content, lose nothing: both tokens are there, in whichever
/// order the writers came.
pub proof fn lemma_serial_writers_lose_nothing(
    cache: Map<Seq<char>, TokenInfoView>,
    a: Seq<char>,
    x: TokenInfoView,
    b: Seq<char>,
    y: TokenInfoView,
)
    requires
        a != b,
    ensures
        cache.insert(a, x).insert(b, y) == cache.insert(b, y).insert(a, x),
        cache.insert(a, x).insert(b, y).dom().contains(a),
        cache.insert(a, x).insert(b, y).dom().contains(b),
        cache.insert(a, x).insert(b, y)[a] == x,
        cache.insert(a, x).insert(b, y)[b] == y,
{
    assert(cache.insert(a, x).insert(b, y) =~= cache.insert(b, y).insert(a, x));
}

} // verus!
