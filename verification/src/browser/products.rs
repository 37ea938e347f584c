//! The product graph: everything the user has made, pulled from the
//! connectors, with the time each connector last synced.
use vstd::prelude::*;
use std::collections::BTreeMap;
use crate::browser::connector::{debug_name_of, debug_names_are_distinct, ConnectorKind};
use crate::chars::str_eq;
use crate::seqs::{
    first_index, has_key, lemma_first_index_is, lemma_first_index_none, lookup, position_of_key,
};

verus! {

/// Stable identifier of a product, `<connector>:<host>:<path>`, for
/// example `github:cochranblock:atsisbroken`.
#[derive(Debug, Clone, PartialEq, Eq, Hash, PartialOrd, Ord)]
pub struct ProductId(pub String);

impl ProductId {
    pub fn new(s: &str) -> (r: ProductId)
        ensures
            r.0@ == s@,
    {
        ProductId(s.to_owned())
    }
}

/// One thing the user has made: a repository, a post, an answer, a
/// patent, a package, a talk.
#[derive(Debug, Clone, PartialEq, Eq)]
pub struct Product {
    pub id: ProductId,
    pub source: ConnectorKind,
    pub kind: ProductKind,
    pub title: String,
    /// Canonical public URL; every quote points back here. Empty only for
    /// pasted content whose authorship the user attests.
    pub url: String,
    /// RFC 3339 time of first publication.
    pub published: String,
    /// RFC 3339 time of the latest activity.
    pub updated: String,
    /// Verbatim excerpts with byte offsets into the source.
    pub excerpts: Vec<Excerpt>,
    /// Keywords, tags, language names.
    pub topics: Vec<String>,
    pub stats: ProductStats,
    pub authorship: Authorship,
    /// Connector-specific extras, read by the UI only.
    pub metadata: BTreeMap<String, String>,
}

#[derive(Debug, Clone, Copy, PartialEq, Eq, Structural)]
pub enum ProductKind {
    /// A code repository: owned, contributed to, or forked.
    Repo,
    /// A blog post or long-form article.
    Post,
    /// An answer on a Q&A site.
    Answer,
    /// A short post: a comment, a toot, a tweet.
    Microblog,
    /// A published software package.
    Package,
    /// A granted or pending patent.
    Patent,
    /// An academic paper.
    Paper,
    /// A talk, presentation, video or podcast appearance.
    Talk,
    /// A design portfolio piece.
    Design,
    /// Many tightly themed commits in one repository.
    CommitCluster,
    /// Pasted content the user attests is theirs.
    ManualPaste,
    /// Anything else.
    Other,
}

impl Default for ProductKind {
    fn default() -> (r: ProductKind)
        ensures
            r == ProductKind::Other,
    {
        ProductKind::Other
    }
}

/// A verbatim span of a product's source text.
#[derive(Debug, Clone, PartialEq, Eq)]
pub struct Excerpt {
    /// The text, byte for byte from the source.
    pub text: String,
    /// Byte offset into the source body (0 where the source has no body).
    pub byte_offset: usize,
    /// Byte length of the excerpt in the source.
    pub byte_length: usize,
    pub kind: ExcerptKind,
}

#[derive(Debug, Clone, Copy, PartialEq, Eq, Structural)]
pub enum ExcerptKind {
    /// First paragraph of a README, a blog intro, a paper abstract.
    Intro,
    /// The body of the artifact.
    Body,
    /// A heading and the paragraph after it.
    Section,
    /// A commit message, verbatim.
    CommitMessage,
    /// An answer to a question.
    AnswerBody,
    /// A short post or comment, whole.
    ShortForm,
    /// A patent claim or abstract.
    Claim,
    /// A talk title and abstract.
    TalkAbstract,
    /// A package's README or description.
    PackageDescription,
    /// Pasted content that fits nothing above.
    ManualPaste,
}

impl Default for ExcerptKind {
    fn default() -> (r: ExcerptKind)
        ensures
            r == ExcerptKind::Body,
    {
        ExcerptKind::Body
    }
}

/// Source statistics in one generic shape.
#[derive(Debug, Clone, Copy, PartialEq, Eq, Structural)]
pub struct ProductStats {
    /// Stars, upvotes, claps: the source's popularity measure.
    pub popularity: u32,
    /// Views, downloads, reads.
    pub views: u32,
    /// Comments and replies.
    pub conversation: u32,
    /// Citations of a paper or patent.
    pub cited_by: u32,
}

impl Default for ProductStats {
    fn default() -> (r: ProductStats)
        ensures
            r == (ProductStats { popularity: 0, views: 0, conversation: 0, cited_by: 0 }),
    {
        ProductStats { popularity: 0, views: 0, conversation: 0, cited_by: 0 }
    }
}

/// The user's part in a product.
#[derive(Debug, Clone, PartialEq, Eq)]
pub enum Authorship {
    /// Sole author.
    Sole,
    /// Primary author, with the co-authors named.
    PrimaryWith { co_authors: Vec<String> },
    /// Contributor to a project led by someone else, named when known.
    Contributor { lead: Option<String> },
    /// The connector could not tell.
    Unknown,
}

impl Default for Authorship {
    fn default() -> (r: Authorship)
        ensures
            r is Unknown,
    {
        Authorship::Unknown
    }
}

/// All of the user's products, deduplicated by id, and the time each
/// connector last synced.
#[derive(Debug, Clone, PartialEq, Eq)]
pub struct ProductGraph {
    /// Schema version of the stored form.
    pub version: u32,
    pub products: Vec<Product>,
    /// Last sync time (RFC 3339) per connector, keyed by the connector's
    /// `{:?}` name; the first entry with a key is the one that counts.
    pub last_synced: Vec<(String, String)>,
}

impl Default for ProductGraph {
    fn default() -> (r: ProductGraph)
        ensures
            r.version == 0,
            r.products@.len() == 0,
            r.last_synced@.len() == 0,
    {
        ProductGraph { version: 0, products: Vec::new(), last_synced: Vec::new() }
    }
}

/// A product has the given id.
pub open spec fn has_id(id: Seq<char>) -> spec_fn(Product) -> bool {
    |p: Product| p.id.0@ == id
}

/// What `upsert` makes of a product list: the first product with the
/// same id is replaced, or the product is appended.
pub open spec fn upserted(products: Seq<Product>, product: Product) -> Seq<Product> {
    match first_index(products, has_id(product.id.0@)) {
        Some(i) => products.update(i, product),
        None => products.push(product),
    }
}

/// The products of one connector, in graph order.
pub open spec fn of_source(products: Seq<Product>, kind: ConnectorKind) -> Seq<Product> {
    products.filter(|p: Product| p.source == kind)
}

/// No two products share an id.
pub open spec fn ids_distinct(products: Seq<Product>) -> bool {
    forall|i: int, j: int|
        0 <= i < j < products.len() ==> #[trigger] products[i].id.0@ != #[trigger] products[j].id.0@
}

/// Index of the first product with the given id.
fn position_of_id(products: &Vec<Product>, id: &ProductId) -> (r: Option<usize>)
    ensures
        r matches Some(i) ==> i < products@.len() && first_index(products@, has_id(id.0@)) == Some(
            i as int,
        ),
        r is None ==> first_index(products@, has_id(id.0@)) is None,
{
    let mut i: usize = 0;
    while i < products.len()
        invariant
            i <= products@.len(),
            forall|j: int| 0 <= j < i ==> !(has_id(id.0@))(#[trigger] products@[j]),
        decreases products@.len() - i,
    {
        if str_eq(products[i].id.0.as_str(), id.0.as_str()) {
            proof {
                lemma_first_index_is(products@, has_id(id.0@), i as int);
            }
            return Some(i);
        }
        i += 1;
    }
    proof {
        lemma_first_index_none(products@, has_id(id.0@));
    }
    None
}

impl ProductGraph {
    /// Insert a product, or replace the one with the same id. Connector
    /// syncs build their products and merge them in with this.
    pub fn upsert(&mut self, product: Product)
        ensures
            final(self).products@ == upserted(old(self).products@, product),
            final(self).version == old(self).version,
            final(self).last_synced@ == old(self).last_synced@,
    {
        match position_of_id(&self.products, &product.id) {
            Some(i) => {
                self.products.set(i, product);
            },
            None => {
                self.products.push(product);
            },
        }
    }

    /// The products that came from one connector.
    pub fn from_source(&self, kind: ConnectorKind) -> (r: Vec<&Product>)
        ensures
            r@.map_values(|p: &Product| *p) == of_source(self.products@, kind),
    {
        let mut r: Vec<&Product> = Vec::new();
        let mut i: usize = 0;
        while i < self.products.len()
            invariant
                i <= self.products@.len(),
                r@.map_values(|p: &Product| *p) == of_source(self.products@.take(i as int), kind),
            decreases self.products@.len() - i,
        {
            let p = &self.products[i];
            proof {
                let s = self.products@.take(i as int + 1);
                assert(s.drop_last() =~= self.products@.take(i as int));
                assert(s.last() == *p);
                reveal(Seq::filter);
            }
            if p.source == kind {
                r.push(p);
            }
            i += 1;
            assert(r@.map_values(|p: &Product| *p) =~= of_source(self.products@.take(i as int), kind));
        }
        assert(self.products@.take(i as int) =~= self.products@);
        r
    }

    /// Record that a connector synced at `when` (RFC 3339).
    pub fn record_sync(&mut self, kind: ConnectorKind, when: &str)
        ensures
            final(self).products@ == old(self).products@,
            final(self).version == old(self).version,
            forall|k: ConnectorKind|
                #![trigger lookup(final(self).last_synced@, debug_name_of(k))]
                lookup(final(self).last_synced@, debug_name_of(k)) == if debug_name_of(k)
                    == debug_name_of(kind) {
                    Some(when@)
                } else {
                    lookup(old(self).last_synced@, debug_name_of(k))
                },
            forall|k: ConnectorKind|
                #![trigger lookup(final(self).last_synced@, debug_name_of(k))]
                lookup(final(self).last_synced@, debug_name_of(k)) == if k == kind {
                    Some(when@)
                } else {
                    lookup(old(self).last_synced@, debug_name_of(k))
                },
    {
        let name = kind.debug_name();
        let ghost old_entries = self.last_synced@;
        match position_of_key(&self.last_synced, name) {
            Some(i) => {
                self.last_synced.set(i, (name.to_owned(), when.to_owned()));
                proof {
                    let e = self.last_synced@;
                    assert forall|k: ConnectorKind|
                        #![trigger lookup(e, debug_name_of(k))]
                        lookup(e, debug_name_of(k)) == if debug_name_of(k) == debug_name_of(kind) {
                            Some(when@)
                        } else {
                            lookup(old_entries, debug_name_of(k))
                        } by {
                        let key = debug_name_of(k);
                        lemma_lookup_after_set(old_entries, i as int, e, name@, when@, key);
                    }
                }
            },
            None => {
                self.last_synced.push((name.to_owned(), when.to_owned()));
                proof {
                    let e = self.last_synced@;
                    assert forall|k: ConnectorKind|
                        #![trigger lookup(e, debug_name_of(k))]
                        lookup(e, debug_name_of(k)) == if debug_name_of(k) == debug_name_of(kind) {
                            Some(when@)
                        } else {
                            lookup(old_entries, debug_name_of(k))
                        } by {
                        let key = debug_name_of(k);
                        lemma_lookup_after_push(old_entries, e, name@, when@, key);
                    }
                }
            },
        }
        proof {
            assert forall|k: ConnectorKind| debug_name_of(k) == debug_name_of(kind) implies k == kind by {
                debug_names_are_distinct(k, kind);
            }
        }
    }

    /// When a connector last synced, if it ever did.
    pub fn last_sync(&self, kind: ConnectorKind) -> (r: Option<&str>)
        ensures
            r matches Some(s) ==> lookup(self.last_synced@, debug_name_of(kind)) == Some(s@),
            r is None ==> lookup(self.last_synced@, debug_name_of(kind)) is None,
    {
        match position_of_key(&self.last_synced, kind.debug_name()) {
            Some(i) => Some(self.last_synced[i].1.as_str()),
            None => None,
        }
    }
}

proof fn lemma_lookup_after_set(
    old_entries: Seq<(String, String)>,
    i: int,
    e: Seq<(String, String)>,
    name: Seq<char>,
    when: Seq<char>,
    key: Seq<char>,
)
    requires
        first_index(old_entries, has_key(name)) == Some(i),
        e.len() == old_entries.len(),
        e[i].0@ == name,
        e[i].1@ == when,
        forall|j: int| 0 <= j < e.len() && j != i ==> e[j] == old_entries[j],
    ensures
        lookup(e, key) == if key == name {
            Some(when)
        } else {
            lookup(old_entries, key)
        },
{
    crate::seqs::lemma_first_index_spec(old_entries, has_key(name));
    if key == name {
        assert forall|j: int| 0 <= j < i implies !(has_key(key))(#[trigger] e[j]) by {
            assert(e[j] == old_entries[j]);
        }
        lemma_first_index_is(e, has_key(key), i);
    } else {
        crate::seqs::lemma_first_index_spec(old_entries, has_key(key));
        match first_index(old_entries, has_key(key)) {
            Some(m) => {
                assert(m != i);
                assert forall|j: int| 0 <= j < m implies !(has_key(key))(#[trigger] e[j]) by {
                    if j != i {
                        assert(e[j] == old_entries[j]);
                    }
                }
                assert(e[m] == old_entries[m]);
                lemma_first_index_is(e, has_key(key), m);
            },
            None => {
                assert forall|j: int| 0 <= j < e.len() implies !(has_key(key))(#[trigger] e[j]) by {
                    if j != i {
                        assert(e[j] == old_entries[j]);
                    }
                }
                lemma_first_index_none(e, has_key(key));
            },
        }
    }
}

proof fn lemma_lookup_after_push(
    old_entries: Seq<(String, String)>,
    e: Seq<(String, String)>,
    name: Seq<char>,
    when: Seq<char>,
    key: Seq<char>,
)
    requires
        first_index(old_entries, has_key(name)) is None,
        e.len() == old_entries.len() + 1,
        e.last().0@ == name,
        e.last().1@ == when,
        forall|j: int| 0 <= j < old_entries.len() ==> e[j] == old_entries[j],
    ensures
        lookup(e, key) == if key == name {
            Some(when)
        } else {
            lookup(old_entries, key)
        },
{
    assert(e.drop_last() =~= old_entries);
    crate::seqs::lemma_first_index_spec(old_entries, has_key(key));
    if let Some(i) = first_index(old_entries, has_key(key)) {
        assert(e[i] == old_entries[i]);
    }
}

/// Upserting a product into a list without repeated ids keeps the ids
/// distinct, and the product then stands in the list.
pub proof fn upsert_keeps_ids_distinct(products: Seq<Product>, product: Product)
    requires
        ids_distinct(products),
    ensures
        ids_distinct(upserted(products, product)),
        upserted(products, product).contains(product),
{
    let r = upserted(products, product);
    crate::seqs::lemma_first_index_spec(products, has_id(product.id.0@));
    match first_index(products, has_id(product.id.0@)) {
        Some(i) => {
            assert forall|a: int, b: int| 0 <= a < b < r.len() implies #[trigger] r[a].id.0@
                != #[trigger] r[b].id.0@ by {
                if a == i {
                    assert(products[b].id.0@ != products[i].id.0@);
                } else if b == i {
                    assert(products[a].id.0@ != products[i].id.0@);
                } else {
                    assert(r[a] == products[a] && r[b] == products[b]);
                }
            }
            assert(r[i] == product);
        },
        None => {
            assert forall|a: int, b: int| 0 <= a < b < r.len() implies #[trigger] r[a].id.0@
                != #[trigger] r[b].id.0@ by {
                if b == products.len() {
                    assert(!(has_id(product.id.0@))(products[a]));
                } else {
                    assert(r[a] == products[a] && r[b] == products[b]);
                }
            }
            assert(r[products.len() as int] == product);
        },
    }
}

/// Upserting the same product twice leaves the list as one upsert does.
pub proof fn upsert_is_idempotent(products: Seq<Product>, product: Product)
    ensures
        upserted(upserted(products, product), product) == upserted(products, product),
{
    let r = upserted(products, product);
    crate::seqs::lemma_first_index_spec(products, has_id(product.id.0@));
    match first_index(products, has_id(product.id.0@)) {
        Some(i) => {
            assert forall|j: int| 0 <= j < i implies !(has_id(product.id.0@))(#[trigger] r[j]) by {
                assert(r[j] == products[j]);
            }
            lemma_first_index_is(r, has_id(product.id.0@), i);
            assert(r.update(i, product) =~= r);
        },
        None => {
            let n = products.len() as int;
            assert forall|j: int| 0 <= j < n implies !(has_id(product.id.0@))(#[trigger] r[j]) by {
                assert(r[j] == products[j]);
            }
            lemma_first_index_is(r, has_id(product.id.0@), n);
            assert(r.update(n, product) =~= r);
        },
    }
}

} // verus!
