//! Names of the variants of an enum, each with a stable index.

use vstd::prelude::*;
use vstd::string::*;
use crate::text;

verus! {

/// A variant of an enum of names.
#[derive(Clone, Debug, PartialEq, Eq)]
pub enum NameVariant {
    /// A name.
    Unit(String),
    /// The names of another enum, which stand in the place of this variant.
    Wrap(Vec<String>),
}

/// An enum of names.
#[derive(Clone, Debug, PartialEq, Eq)]
pub struct NameEnum {
    /// What stands before each name of its own.
    pub prefix: String,
    pub variants: Vec<NameVariant>,
}

/// The texts of a variant.
pub open spec fn variant_texts(prefix: Seq<char>, v: NameVariant) -> Seq<Seq<char>> {
    match v {
        NameVariant::Unit(name) => seq![prefix + name@],
        NameVariant::Wrap(inner) => text::views(inner@),
    }
}

/// The texts of variants, in their order.
pub open spec fn texts_of(prefix: Seq<char>, variants: Seq<NameVariant>) -> Seq<Seq<char>>
    decreases variants.len(),
{
    if variants.len() == 0 {
        Seq::empty()
    } else {
        texts_of(prefix, variants.drop_last()) + variant_texts(prefix, variants.last())
    }
}

impl NameEnum {
    /// The texts of all names, in the order of their indexes.
    pub open spec fn texts(self) -> Seq<Seq<char>> {
        texts_of(self.prefix@, self.variants@)
    }

    /// How many names the first `k` variants hold.
    pub open spec fn offset(self, k: int) -> int {
        texts_of(self.prefix@, self.variants@.take(k)).len() as int
    }

    /// Whether the variant `k` holds a name `j`.
    pub open spec fn has(self, k: int, j: int) -> bool {
        &&& 0 <= k < self.variants@.len()
        &&& 0 <= j < variant_texts(self.prefix@, self.variants@[k]).len()
    }

    /// The index of the name `j` of the variant `k`.
    pub open spec fn index_spec(self, k: int, j: int) -> int {
        self.offset(k) + j
    }

    /// Variants hold no more names than the variants before a later one.
    proof fn lemma_offset(self, k: int, n: int)
        requires
            0 <= k < n <= self.variants@.len(),
        ensures
            self.offset(k + 1) == self.offset(k) + variant_texts(
                self.prefix@,
                self.variants@[k],
            ).len(),
            self.offset(k + 1) <= self.offset(n),
            self.offset(n) <= self.texts().len(),
        decreases self.variants@.len() - k,
    {
        assert(self.variants@.take(k + 1).drop_last() =~= self.variants@.take(k));
        assert(self.variants@.take(self.variants@.len() as int) =~= self.variants@);
        if k + 1 < n {
            self.lemma_offset(k + 1, n);
        } else if n < self.variants@.len() {
            self.lemma_offset(n, self.variants@.len() as int);
        }
    }

    /// The text at the index of a name is that of the name.
    proof fn lemma_text(self, k: int, j: int, n: int)
        requires
            self.has(k, j),
            k < n <= self.variants@.len(),
        ensures
            self.index_spec(k, j) < self.offset(n),
            texts_of(self.prefix@, self.variants@.take(n))[self.index_spec(k, j)]
                == variant_texts(self.prefix@, self.variants@[k])[j],
        decreases n,
    {
        self.lemma_offset(k, n);
        assert(self.variants@.take(n).drop_last() =~= self.variants@.take(n - 1));
        if k < n - 1 {
            self.lemma_text(k, j, n - 1);
        }
    }

    /// How many names there are.
    pub fn count(&self) -> (r: usize)
        requires
            self.texts().len() <= usize::MAX,
        ensures
            r == self.texts().len(),
    {
        let r = self.offset_of(self.variants.len());
        assert(self.variants@.take(self.variants@.len() as int) =~= self.variants@);
        r
    }

    fn offset_of(&self, k: usize) -> (r: usize)
        requires
            k <= self.variants@.len(),
            self.texts().len() <= usize::MAX,
        ensures
            r == self.offset(k as int),
    {
        let mut r: usize = 0;
        let mut i: usize = 0;
        assert(self.variants@.take(0) =~= Seq::empty());
        while i < k
            invariant
                i <= k <= self.variants@.len(),
                self.texts().len() <= usize::MAX,
                r == self.offset(i as int),
            decreases k - i,
        {
            proof {
                self.lemma_offset(i as int, k as int);
            }
            r = r + match &self.variants[i] {
                NameVariant::Unit(_) => 1,
                NameVariant::Wrap(inner) => inner.len(),
            };
            i = i + 1;
        }
        r
    }

    /// The index of the name `j` of the variant `k`.
    pub fn index(&self, k: usize, j: usize) -> (r: usize)
        requires
            self.has(k as int, j as int),
            self.texts().len() <= usize::MAX,
        ensures
            r == self.index_spec(k as int, j as int),
            r < self.texts().len(),
    {
        proof {
            self.lemma_offset(k as int, self.variants@.len() as int);
        }
        self.offset_of(k) + j
    }

    /// The text of the name `j` of the variant `k`: a name of its own comes with the prefix, another
    /// one as its enum writes it.
    pub fn as_str(&self, k: usize, j: usize) -> (r: String)
        requires
            self.has(k as int, j as int),
        ensures
            r@ == variant_texts(self.prefix@, self.variants@[k as int])[j as int],
    {
        match &self.variants[k] {
            NameVariant::Unit(name) => self.prefix.as_str().to_owned().concat(name.as_str()),
            NameVariant::Wrap(inner) => inner[j].as_str().to_owned(),
        }
    }

    /// The texts of all names, in the order of their indexes.
    pub fn all(&self) -> (r: Vec<String>)
        ensures
            text::views(r@) == self.texts(),
    {
        let mut r: Vec<String> = Vec::new();
        let ghost prefix = self.prefix@;
        let mut i: usize = 0;
        assert(text::views(r@) =~= texts_of(prefix, self.variants@.take(0)));
        while i < self.variants.len()
            invariant
                prefix == self.prefix@,
                i <= self.variants.len(),
                text::views(r@) == texts_of(prefix, self.variants@.take(i as int)),
            decreases self.variants.len() - i,
        {
            let ghost before = text::views(r@);
            assert(self.variants@.take(i + 1).drop_last() =~= self.variants@.take(i as int));
            match &self.variants[i] {
                NameVariant::Unit(name) => {
                    let ghost old_r = r@;
                    let t = self.prefix.as_str().to_owned().concat(name.as_str());
                    r.push(t);
                    assert(text::views(r@) =~= text::views(old_r).push(t@));
                    assert(text::views(r@) =~= before + seq![prefix + name@]);
                },
                NameVariant::Wrap(inner) => {
                    let mut j: usize = 0;
                    assert(text::views(r@) =~= before + text::views(inner@).take(0));
                    while j < inner.len()
                        invariant
                            j <= inner.len(),
                            text::views(r@) == before + text::views(inner@).take(j as int),
                        decreases inner.len() - j,
                    {
                        let ghost old_r = r@;
                        let t = inner[j].as_str().to_owned();
                        r.push(t);
                        assert(text::views(r@) =~= text::views(old_r).push(t@));
                        assert(text::views(inner@).take(j + 1) =~= text::views(inner@).take(
                            j as int,
                        ).push(t@));
                        assert(text::views(r@) =~= before + text::views(inner@).take(j + 1));
                        j = j + 1;
                    }
                    assert(text::views(inner@).take(inner.len() as int) =~= text::views(inner@));
                },
            }
            i = i + 1;
        }
        assert(self.variants@.take(self.variants@.len() as int) =~= self.variants@);
        r
    }
}

/// Every name has an index below the count, at which its text stands, and two names share none.
pub proof fn indexes_tell_names_apart(e: NameEnum, k1: int, j1: int, k2: int, j2: int)
    requires
        e.has(k1, j1),
        e.has(k2, j2),
    ensures
        0 <= e.index_spec(k1, j1) < e.texts().len(),
        e.texts()[e.index_spec(k1, j1)] == variant_texts(e.prefix@, e.variants@[k1])[j1],
        e.index_spec(k1, j1) == e.index_spec(k2, j2) ==> k1 == k2 && j1 == j2,
{
    let n = e.variants@.len() as int;
    assert(e.variants@.take(n) =~= e.variants@);
    e.lemma_text(k1, j1, n);
    if k1 < k2 {
        e.lemma_offset(k1, k2);
    } else if k2 < k1 {
        e.lemma_offset(k2, k1);
    }
}

/// Every number below the count is the index of a name.
pub proof fn indexes_are_dense(e: NameEnum, i: int)
    requires
        0 <= i < e.texts().len(),
    ensures
        exists|k: int, j: int| #[trigger] e.has(k, j) && e.index_spec(k, j) == i,
{
    assert(e.variants@.take(e.variants@.len() as int) =~= e.variants@);
    dense_upto(e, i, e.variants@.len() as int);
}

proof fn dense_upto(e: NameEnum, i: int, n: int)
    requires
        0 <= n <= e.variants@.len(),
        0 <= i < e.offset(n),
    ensures
        exists|k: int, j: int| #[trigger] e.has(k, j) && e.index_spec(k, j) == i,
    decreases n,
{
    if n == 0 {
        assert(e.variants@.take(0) =~= Seq::empty());
    } else {
        e.lemma_offset(n - 1, n);
        if i < e.offset(n - 1) {
            dense_upto(e, i, n - 1);
        } else {
            assert(e.has(n - 1, i - e.offset(n - 1)));
            assert(e.index_spec(n - 1, i - e.offset(n - 1)) == i);
        }
    }
}

/// A name of its own has one text, which is the prefix and the name; a wrapped enum has the texts that it
/// has itself.
pub proof fn own_names_have_the_prefix(e: NameEnum, k: int, j: int)
    requires
        0 <= k < e.variants@.len(),
    ensures
        e.variants@[k] matches NameVariant::Unit(name) ==> {
            &&& e.has(k, j) <==> j == 0
            &&& e.texts()[e.index_spec(k, 0)] == e.prefix@ + name@
        },
        e.variants@[k] matches NameVariant::Wrap(inner) ==> {
            &&& e.has(k, j) <==> 0 <= j < inner@.len()
            &&& 0 <= j < inner@.len() ==> e.texts()[e.index_spec(k, j)] == inner@[j]@
        },
{
    if e.has(k, j) {
        indexes_tell_names_apart(e, k, j, k, j);
    }
    if e.variants@[k] is Unit {
        assert(e.has(k, 0));
        indexes_tell_names_apart(e, k, 0, k, 0);
    }
}

/// Indexes count the names in their order, from 0: each name of a variant has the index after that of
/// the name before it, and the first name of a variant comes after all names of the variants before it.
pub proof fn indexes_follow_the_order(e: NameEnum, k: int, j: int)
    requires
        0 <= k < e.variants@.len(),
    ensures
        e.index_spec(0, 0) == 0,
        e.index_spec(k, j + 1) == e.index_spec(k, j) + 1,
        e.variants@[k] is Unit ==> e.index_spec(k + 1, 0) == e.index_spec(k, 0) + 1,
        e.variants@[k] matches NameVariant::Wrap(inner) ==> e.index_spec(k + 1, 0) == e.index_spec(
            k,
            0,
        ) + inner@.len(),
        k + 1 == e.variants@.len() ==> e.index_spec(k + 1, 0) == e.texts().len(),
{
    e.lemma_offset(k, k + 1);
    assert(e.variants@.take(0) =~= Seq::empty());
    assert(e.variants@.take(e.variants@.len() as int) =~= e.variants@);
}

} // verus!
