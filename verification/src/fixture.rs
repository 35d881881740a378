//! Fixture identifiers and fixture paths.
//!
//! A fixture path names a fixture in the fixture tree: the first id is the
//! root fixture, further ids name sub-fixtures. A path holds at most
//! [`FixturePath::MAX_LEN`] ids. Paths are written as their ids joined by
//! dots (`"1.2.3"`).

use vstd::prelude::*;
use vstd::slice::slice_subrange;
use core::cmp::Ordering;
use crate::attribute::{FixtureChannel3Attribute, attribute_text};
use crate::text::{
    IntErrorKind, chars_of, decimal, int_error_text, lemma_decimal_digits, lemma_parse_decimal,
    parse_unsigned, parse_unsigned_chars, push_decimal, push_uuid, uuid_text,
};

verus! {

/// Errors of fixture lookups, fixture ids and fixture paths.
#[derive(Debug, Clone)]
pub enum FixtureError {
    NotFound(FixturePath),
    NoChannelValueSourceFound,
    EmptyPatch,
    DuplicateChannelType,
    InvalidDataLength,
    NoFunctionAccess,
    FixtureTypeNotFound(String),
    FixtureTypeModeNotFound(String, u32),
    /// A fixture id is not an unsigned 32-bit number.
    FixtureIdParseError(IntErrorKind),
    /// A fixture id is zero.
    FixtureIdIsZero,
    FixturePathIsEmpty,
    /// A fixture path has more than [`FixturePath::MAX_LEN`] parts.
    FixturePathHasTooManyParts,
    /// The GDTF fixture type with this UUID (as a 128-bit number) is unknown.
    GdtfFixtureTypeNotFound(u128),
    GdtfFixtureDmxModeNotFound(String),
    GdtfChannelValueNotConvertible(String),
    GdtfMaxDmxOffsetNotFound,
    GdtfChannelNotFound(String),
    GdtfChannelValueNotFound(String),
    GdtfNoChannelForAttributeFound(String),
    GdtfChannelHasNoAttribute(String),
    GdtfChannelFunctionMismatch(usize, usize),
    GdtfAtributeHasNoName,
    GdtfFixtureCouldNotProduceRgbColor(u32),
    GdtfFixtureHasNoColorWheelColor(u32),
    GdtfFixtureCouldNotProduceDisplayColor(u32),
    GdtfFixtureMasterGeometryNotFound(u32),
    GdtfFixtureDmxModeGeometryNotFound(u32),
    NoDisplayColor(u32),
    GdtfAttributeNotFound(FixtureChannel3Attribute),
    GdtfAttributeValueNotFound(FixtureChannel3Attribute),
}

/// How a virtual attribute combines the attribute it is derived from.
#[derive(Debug, Clone, Copy, PartialEq, Eq, Structural)]
pub enum RelationKind {
    /// Multiply the target with the source attribute's value.
    Multiply,
    /// Override the target with the source attribute's value.
    Override,
}

/// How a virtual attribute is derived from an attribute of another fixture.
#[derive(Debug, Clone)]
pub struct Relation {
    pub(crate) kind: RelationKind,
    pub(crate) fixture_path: FixturePath,
    pub(crate) attribute: FixtureChannel3Attribute,
}

impl Relation {
    /// The relation's kind.
    pub closed spec fn spec_kind(&self) -> RelationKind {
        self.kind
    }

    /// The path of the referred fixture.
    pub closed spec fn spec_fixture_path(&self) -> FixturePath {
        self.fixture_path
    }

    /// The referred attribute.
    pub closed spec fn spec_attribute(&self) -> FixtureChannel3Attribute {
        self.attribute
    }

    /// A relation of the given kind to `attribute` of the fixture at `fixture_path`.
    pub fn new(
        kind: RelationKind,
        fixture_path: FixturePath,
        attribute: FixtureChannel3Attribute,
    ) -> (res: Relation)
        ensures
            res.spec_kind() == kind,
            res.spec_fixture_path() == fixture_path,
            res.spec_attribute() == attribute,
    {
        Relation { kind, fixture_path, attribute }
    }

    /// The kind of the relation.
    pub fn kind(&self) -> (res: &RelationKind)
        ensures
            *res == self.spec_kind(),
    {
        &self.kind
    }

    /// The path of the fixture the relation refers to.
    pub fn fixture_path(&self) -> (res: FixturePath)
        ensures
            res == self.spec_fixture_path(),
    {
        self.fixture_path
    }

    /// The attribute of the referred fixture.
    pub fn attribute(&self) -> (res: FixtureChannel3Attribute)
        ensures
            res == self.spec_attribute(),
    {
        self.attribute.duplicate()
    }
}

/// A non-zero identifier of a fixture.
#[derive(Debug, Clone, Copy, PartialEq, Eq, Structural, PartialOrd, Ord, Hash)]
pub struct FixtureId(u32);

impl View for FixtureId {
    type V = u32;

    closed spec fn view(&self) -> u32 {
        self.0
    }
}

impl FixtureId {
    #[verifier::type_invariant]
    spec fn non_zero(self) -> bool {
        self.0 != 0
    }

    /// Makes a fixture id from a number; zero is refused.
    pub fn new(id: u32) -> (res: Result<FixtureId, FixtureError>)
        ensures
            id == 0 ==> res == Err::<FixtureId, FixtureError>(FixtureError::FixtureIdIsZero),
            id != 0 ==> res == Ok::<FixtureId, FixtureError>(spec_fixture_id(id)),
    {
        if id == 0 {
            Err(FixtureError::FixtureIdIsZero)
        } else {
            Ok(FixtureId(id))
        }
    }

    /// The id as a number.
    pub fn as_u32(&self) -> (res: u32)
        ensures
            res == self@,
            res != 0,
    {
        proof {
            use_type_invariant(self);
        }
        self.0
    }

    /// The id written in decimal.
    pub fn to_string(&self) -> (res: String)
        ensures
            res@ == decimal(self@ as nat),
    {
        let mut s = String::new();
        push_decimal(&mut s, self.0 as u64);
        s
    }

    /// Reads a fixture id from decimal text.
    pub fn from_str(s: &str) -> (res: Result<FixtureId, FixtureError>)
        ensures
            match fixture_id_from_text(s@) {
                Ok(v) => res is Ok && res->Ok_0@ == v,
                Err(e) => res == Err::<FixtureId, FixtureError>(e),
            },
    {
        let cs = chars_of(s);
        assert(cs@.subrange(0, cs@.len() as int) =~= s@);
        Self::from_chars(cs.as_slice(), 0, cs.len())
    }

    fn from_chars(cs: &[char], lo: usize, hi: usize) -> (res: Result<FixtureId, FixtureError>)
        requires
            lo <= hi <= cs@.len(),
        ensures
            match fixture_id_from_text(cs@.subrange(lo as int, hi as int)) {
                Ok(v) => res is Ok && res->Ok_0@ == v,
                Err(e) => res == Err::<FixtureId, FixtureError>(e),
            },
    {
        match parse_unsigned_chars(cs, lo, hi, u32::MAX) {
            Err(kind) => Err(FixtureError::FixtureIdParseError(kind)),
            Ok(v) => FixtureId::new(v),
        }
    }
}

/// The fixture id with the number `v`.
pub closed spec fn spec_fixture_id(v: u32) -> FixtureId {
    FixtureId(v)
}

/// The fixture id with the number `v` has the number `v`.
pub broadcast proof fn lemma_spec_fixture_id(v: u32)
    ensures
        (#[trigger] spec_fixture_id(v))@ == v,
{
}

/// The path of the two fixture ids `a` and `b`.
pub closed spec fn spec_pair(a: u32, b: u32) -> FixturePath {
    let one = FixtureId(1);
    FixturePath { ids: [FixtureId(a), FixtureId(b), one, one, one, one, one, one], len: 2 }
}

/// The path of the pair `a`, `b` holds the ids `a` then `b`.
pub broadcast proof fn lemma_spec_pair(a: u32, b: u32)
    ensures
        (#[trigger] spec_pair(a, b))@ == seq![a, b],
{
    assert(spec_pair(a, b)@ =~= seq![a, b]);
}

/// The path holding only the root fixture `id`.
pub closed spec fn spec_single(id: FixtureId) -> FixturePath {
    let one = FixtureId(1);
    FixturePath { ids: [id, one, one, one, one, one, one, one], len: 1 }
}

/// What reading a fixture id from the text `s` gives.
pub open spec fn fixture_id_from_text(s: Seq<char>) -> Result<u32, FixtureError> {
    match parse_unsigned(s, u32::MAX as nat) {
        Err(kind) => Err(FixtureError::FixtureIdParseError(kind)),
        Ok(v) => if v == 0 {
            Err(FixtureError::FixtureIdIsZero)
        } else {
            Ok(v as u32)
        },
    }
}

/// How closely two fixture paths must agree in [`FixturePath::matches`].
#[derive(Debug, Copy, Clone, PartialEq, Eq, Structural, PartialOrd, Ord, Hash)]
pub enum FixturePathMatchLevel {
    /// The paths are equal.
    Exact,
    /// The root fixtures are equal.
    Root,
    /// One path is a prefix of the other (the fixtures are not siblings).
    NotSibling,
}

/// A path of at most [`FixturePath::MAX_LEN`] fixture ids.
#[derive(Clone, Copy, Eq, Hash, Debug)]
pub struct FixturePath {
    ids: [FixtureId; 8],
    len: u8,
}

impl View for FixturePath {
    type V = Seq<u32>;

    closed spec fn view(&self) -> Seq<u32> {
        Seq::new(self.len as nat, |i: int| self.ids@[i]@)
    }
}

/// The root id of a path; a path without ids reports the id 1.
pub open spec fn path_root(ids: Seq<u32>) -> u32 {
    if ids.len() > 0 {
        ids[0]
    } else {
        1
    }
}

impl FixturePath {
    /// Most ids a fixture path can hold.
    pub const MAX_LEN: usize = 8;

    /// The path's invariant: at most [`FixturePath::MAX_LEN`] ids, none of
    /// them zero, and every unused slot past the length holding the id 1.
    #[verifier::type_invariant]
    pub closed spec fn well_formed(self) -> bool {
        &&& self.len <= 8
        &&& forall|i: int| self.len <= i < 8 ==> #[trigger] self.ids@[i]@ == 1
        &&& forall|i: int| 0 <= i < 8 ==> #[trigger] self.ids@[i]@ != 0
    }

    /// A path holds at most [`FixturePath::MAX_LEN`] ids, none of them zero.
    pub fn lemma_well_formed(&self)
        ensures
            self.well_formed(),
            self@.len() <= 8,
            forall|i: int| 0 <= i < self@.len() ==> #[trigger] self@[i] != 0,
    {
        proof {
            use_type_invariant(self);
        }
    }

    fn padding() -> (res: [FixtureId; 8])
        ensures
            forall|i: int| 0 <= i < 8 ==> #[trigger] res@[i]@ == 1,
    {
        let one = FixtureId(1);
        [one, one, one, one, one, one, one, one]
    }

    /// A path holding only the root fixture `root_id`.
    pub fn new(root_id: FixtureId) -> (res: FixturePath)
        ensures
            res@ == seq![root_id@],
            res == spec_single(root_id),
    {
        proof {
            use_type_invariant(&root_id);
        }
        let one = FixtureId(1);
        let res = FixturePath { ids: [root_id, one, one, one, one, one, one, one], len: 1 };
        assert(res@ =~= seq![root_id@]);
        res
    }

    /// Appends `id` to the path; the path must have room for it.
    pub fn push(&mut self, id: FixtureId)
        requires
            old(self)@.len() < 8,
        ensures
            final(self)@ == old(self)@.push(id@),
    {
        proof {
            use_type_invariant(&*self);
            use_type_invariant(&id);
        }
        let len = self.len as usize;
        let mut ids = self.ids;
        ids[len] = id;
        let ghost old_self = *self;
        *self = FixturePath { ids, len: (len + 1) as u8 };
        assert(self@ =~= old_self@.push(id@));
    }

    /// The path of a root fixture `a` and its sub-fixture `b`.
    pub fn pair(a: FixtureId, b: FixtureId) -> (res: FixturePath)
        ensures
            res == spec_pair(a@, b@),
            res@ == seq![a@, b@],
    {
        proof {
            use_type_invariant(&a);
            use_type_invariant(&b);
        }
        let one = FixtureId(1);
        let res = FixturePath { ids: [a, b, one, one, one, one, one, one], len: 2 };
        assert(res@ =~= seq![a@, b@]);
        res
    }

    /// The number of ids in the path.
    pub fn len(&self) -> (res: usize)
        ensures
            res == self@.len(),
            res <= 8,
    {
        proof {
            use_type_invariant(self);
        }
        self.len as usize
    }

    /// The path holds only a root fixture.
    pub fn is_root_fixture(&self) -> (res: bool)
        ensures
            res == (self@.len() == 1),
    {
        self.len == 1
    }

    /// The number of sub-fixture ids (all ids but the root).
    pub fn sub_len(&self) -> (res: usize)
        requires
            self@.len() >= 1,
        ensures
            res == self@.len() - 1,
    {
        self.len() - 1
    }

    /// The root fixture id.
    pub fn root(&self) -> (res: FixtureId)
        ensures
            res@ == path_root(self@),
    {
        proof {
            use_type_invariant(self);
        }
        self.ids[0]
    }

    /// The last fixture id.
    pub fn last(&self) -> (res: FixtureId)
        requires
            self@.len() >= 1,
        ensures
            res@ == self@.last(),
    {
        let l = self.len();
        self.ids[l - 1]
    }

    /// The ids of the path.
    pub fn as_slice(&self) -> (res: &[FixtureId])
        ensures
            res@.len() == self@.len(),
            forall|i: int| 0 <= i < res@.len() ==> #[trigger] res@[i]@ == self@[i],
    {
        let l = self.len();
        slice_subrange(self.ids.as_slice(), 0, l)
    }

    /// The ids of the path, first to last, in a vector of their own.
    pub fn iter(&self) -> (res: Vec<FixtureId>)
        ensures
            res@.len() == self@.len(),
            forall|i: int| 0 <= i < res@.len() ==> #[trigger] res@[i]@ == self@[i],
    {
        let s = self.as_slice();
        let mut res: Vec<FixtureId> = Vec::new();
        let mut i: usize = 0;
        while i < s.len()
            invariant
                i <= s@.len(),
                s@.len() == self@.len(),
                forall|j: int| 0 <= j < s@.len() ==> #[trigger] s@[j]@ == self@[j],
                res@.len() == i,
                forall|j: int| 0 <= j < i ==> #[trigger] res@[j]@ == self@[j],
            decreases s@.len() - i,
        {
            res.push(s[i]);
            i = i + 1;
        }
        res
    }

    /// Replaces the last id with `sub_id`.
    pub fn replace_last(&mut self, sub_id: FixtureId)
        requires
            old(self)@.len() >= 1,
        ensures
            final(self)@ == old(self)@.update(old(self)@.len() - 1, sub_id@),
    {
        proof {
            use_type_invariant(&*self);
            use_type_invariant(&sub_id);
        }
        let l = self.len as usize;
        let mut ids = self.ids;
        ids[l - 1] = sub_id;
        let ghost old_self = *self;
        *self = FixturePath { ids, len: self.len };
        assert(self@ =~= old_self@.update(old_self@.len() - 1, sub_id@));
    }

    /// The path with `part` appended.
    pub fn extended_with(self, part: FixtureId) -> (res: FixturePath)
        requires
            self@.len() < 8,
        ensures
            res@ == self@.push(part@),
    {
        let mut p = self;
        p.push(part);
        p
    }

    /// Appends the ids of `other`; the path must have room for them.
    pub fn extend(&mut self, other: &[FixtureId])
        requires
            old(self)@.len() + other@.len() <= 8,
        ensures
            final(self)@ == old(self)@ + other@.map_values(|id: FixtureId| id@),
    {
        let ghost start = self@;
        let mut k: usize = 0;
        while k < other.len()
            invariant
                start.len() + other@.len() <= 8,
                k <= other@.len(),
                self@ == start + other@.subrange(0, k as int).map_values(|id: FixtureId| id@),
            decreases other@.len() - k,
        {
            self.push(other[k]);
            k = k + 1;
            assert(self@ =~= start + other@.subrange(0, k as int).map_values(|id: FixtureId| id@));
        }
        assert(other@.subrange(0, k as int) =~= other@);
    }

    /// The path made of `parent` followed by the last id of this path.
    pub fn with_parent(&self, parent: FixturePath) -> (res: FixturePath)
        requires
            self@.len() >= 1,
            parent@.len() < 8,
        ensures
            res@ == parent@.push(self@.last()),
    {
        let last = self.last();
        parent.extended_with(last)
    }

    /// Moves the path from below `old_parent` to below `new_parent`: the ids
    /// after the `old_parent` prefix are appended to `new_parent`.
    pub fn replace_parent(self, old_parent: &FixturePath, new_parent: FixturePath) -> (res: FixturePath)
        requires
            old_parent@.is_prefix_of(self@),
            new_parent@.len() + self@.len() - old_parent@.len() <= 8,
        ensures
            res@ == new_parent@ + self@.subrange(old_parent@.len() as int, self@.len() as int),
    {
        let ol = old_parent.len();
        let sl = self.len();
        let all = self.as_slice();
        let rest = slice_subrange(all, ol, sl);
        let mut p = new_parent;
        p.extend(rest);
        assert(rest@.map_values(|id: FixtureId| id@) =~= self@.subrange(ol as int, sl as int));
        p
    }

    /// `path` is a prefix of this path.
    pub fn starts_with(&self, path: &FixturePath) -> (res: bool)
        ensures
            res == path@.is_prefix_of(self@),
    {
        let path_len = path.len();
        if path_len > self.len() {
            return false;
        }
        assert(path@.subrange(0, path_len as int) =~= path@);
        Self::same_prefix(self, path, path_len)
    }

    /// The first `n` ids of `a` and `b` agree.
    fn same_prefix(a: &FixturePath, b: &FixturePath, n: usize) -> (res: bool)
        requires
            n <= a@.len(),
            n <= b@.len(),
        ensures
            res == (a@.subrange(0, n as int) == b@.subrange(0, n as int)),
    {
        proof {
            use_type_invariant(a);
            use_type_invariant(b);
        }
        let mut i: usize = 0;
        while i < n
            invariant
                a.len <= 8,
                b.len <= 8,
                n <= a@.len(),
                n <= b@.len(),
                i <= n,
                forall|j: int| 0 <= j < i ==> a@[j] == b@[j],
            decreases n - i,
        {
            if a.ids[i].0 != b.ids[i].0 {
                assert(a@.subrange(0, n as int)[i as int] != b@.subrange(0, n as int)[i as int]);
                return false;
            }
            i = i + 1;
        }
        assert(a@.subrange(0, n as int) =~= b@.subrange(0, n as int));
        true
    }

    /// Compares the paths at the given level: `Exact` asks for equal paths,
    /// `Root` for equal roots, `NotSibling` for one path to be a prefix of
    /// the other.
    pub fn matches(&self, path: &FixturePath, level: FixturePathMatchLevel) -> (res: bool)
        ensures
            res == path_matches(self@, path@, level),
    {
        match level {
            FixturePathMatchLevel::Exact => self.eq(path),
            FixturePathMatchLevel::Root => self.root().0 == path.root().0,
            FixturePathMatchLevel::NotSibling => {
                let path_len = path.len();
                let self_len = self.len();
                if path_len == self_len {
                    let r = self.eq(path);
                    assert(r == (path@.is_prefix_of(self@) || self@.is_prefix_of(path@))) by {
                        if path@.is_prefix_of(self@) {
                            assert(self@ =~= path@);
                        }
                    }
                    r
                } else if path_len < self_len {
                    let r = Self::same_prefix(self, path, path_len);
                    assert(path@.subrange(0, path_len as int) =~= path@);
                    r
                } else {
                    let r = Self::same_prefix(path, self, self_len);
                    assert(self@.subrange(0, self_len as int) =~= self@);
                    r
                }
            },
        }
    }
}

/// Paths `a` and `b` match at `level`: `Exact` asks for equal paths, `Root`
/// for equal roots, `NotSibling` for one path to be a prefix of the other.
pub open spec fn path_matches(a: Seq<u32>, b: Seq<u32>, level: FixturePathMatchLevel) -> bool {
    match level {
        FixturePathMatchLevel::Exact => a == b,
        FixturePathMatchLevel::Root => path_root(a) == path_root(b),
        FixturePathMatchLevel::NotSibling => b.is_prefix_of(a) || a.is_prefix_of(b),
    }
}

/// Law: a path starts with itself, and starting with is transitive.
pub proof fn law_starts_with_order(a: FixturePath, b: FixturePath, c: FixturePath)
    ensures
        a@.is_prefix_of(a@),
        c@.is_prefix_of(b@) && b@.is_prefix_of(a@) ==> c@.is_prefix_of(a@),
{
    assert(a@.subrange(0, a@.len() as int) =~= a@);
    if c@.is_prefix_of(b@) && b@.is_prefix_of(a@) {
        assert forall|i: int| 0 <= i < c@.len() implies #[trigger] c@[i] == a@[i] by {
            assert(c@[i] == b@[i]);
            assert(b@[i] == a@[i]);
        }
        assert(a@.subrange(0, c@.len() as int) =~= c@);
    }
}

/// Law: extending a path keeps it as a prefix and keeps its root, and the
/// added id becomes the last one.
pub proof fn law_extended_with(p: FixturePath, id: FixtureId)
    requires
        1 <= p@.len() < 8,
    ensures
        p@.is_prefix_of(p@.push(id@)),
        path_root(p@.push(id@)) == path_root(p@),
        p@.push(id@).last() == id@,
        p@.push(id@).len() == p@.len() + 1,
{
    assert(p@.push(id@).subrange(0, p@.len() as int) =~= p@);
}

/// Law: moving a path from below `old_parent` to below `new_parent` puts it
/// below `new_parent`, and moving it back gives the path it was.
pub proof fn law_replace_parent_round_trip(p: FixturePath, old_parent: FixturePath, new_parent: FixturePath)
    requires
        old_parent@.is_prefix_of(p@),
        new_parent@.len() + p@.len() - old_parent@.len() <= 8,
    ensures
        ({
            let moved = new_parent@ + p@.subrange(old_parent@.len() as int, p@.len() as int);
            &&& new_parent@.is_prefix_of(moved)
            &&& old_parent@ + moved.subrange(new_parent@.len() as int, moved.len() as int) == p@
        }),
{
    let rest = p@.subrange(old_parent@.len() as int, p@.len() as int);
    let moved = new_parent@ + rest;
    assert(moved.subrange(0, new_parent@.len() as int) =~= new_parent@);
    assert(moved.subrange(new_parent@.len() as int, moved.len() as int) =~= rest);
    assert(old_parent@ + rest =~= p@);
}

/// Law: matching exactly implies matching at every other level, and
/// matching is symmetric at every level.
pub proof fn law_match_levels(a: FixturePath, b: FixturePath, level: FixturePathMatchLevel)
    ensures
        path_matches(a@, b@, FixturePathMatchLevel::Exact) ==> path_matches(a@, b@, level),
        path_matches(a@, b@, level) == path_matches(b@, a@, level),
{
    if a@ == b@ {
        assert(a@.subrange(0, a@.len() as int) =~= a@);
    }
}

/// The text of a path: its ids in decimal, joined by dots.
pub open spec fn path_text(ids: Seq<u32>) -> Seq<char>
    decreases ids.len(),
{
    if ids.len() == 0 {
        Seq::empty()
    } else if ids.len() == 1 {
        decimal(ids[0] as nat)
    } else {
        path_text(ids.drop_last()).push('.') + decimal(ids.last() as nat)
    }
}

/// The pieces of `s` between dots, as splitting a string at `'.'` gives them
/// (there is always at least one piece).
pub open spec fn split_dots(s: Seq<char>) -> Seq<Seq<char>>
    decreases s.len(),
{
    if s.len() == 0 {
        seq![Seq::empty()]
    } else {
        let parts = split_dots(s.drop_last());
        if s.last() == '.' {
            parts.push(Seq::empty())
        } else {
            parts.update(parts.len() - 1, parts.last().push(s.last()))
        }
    }
}

/// Reads each piece as a fixture id, failing with the first piece that is
/// not one.
pub open spec fn ids_from_parts(parts: Seq<Seq<char>>) -> Result<Seq<u32>, FixtureError>
    decreases parts.len(),
{
    if parts.len() == 0 {
        Ok(Seq::empty())
    } else {
        match ids_from_parts(parts.drop_last()) {
            Err(e) => Err(e),
            Ok(ids) => match fixture_id_from_text(parts.last()) {
                Err(e) => Err(e),
                Ok(v) => Ok(ids.push(v)),
            },
        }
    }
}

/// What reading a fixture path from the text `s` gives: the text is split
/// at dots, more than [`FixturePath::MAX_LEN`] pieces are refused, and each
/// piece must be a fixture id.
pub open spec fn fixture_path_from_text(s: Seq<char>) -> Result<Seq<u32>, FixtureError> {
    let parts = split_dots(s);
    if parts.len() > 8 {
        Err(FixtureError::FixturePathHasTooManyParts)
    } else {
        ids_from_parts(parts)
    }
}

/// The pieces of `cs` given by start and end positions.
pub open spec fn pieces(cs: Seq<char>, starts: Seq<usize>, ends: Seq<usize>) -> Seq<Seq<char>> {
    Seq::new(starts.len(), |k: int| cs.subrange(starts[k] as int, ends[k] as int))
}

proof fn lemma_split_dots_len(s: Seq<char>)
    ensures
        split_dots(s).len() >= 1,
    decreases s.len(),
{
    if s.len() > 0 {
        lemma_split_dots_len(s.drop_last());
    }
}

proof fn lemma_ids_err_extends(parts: Seq<Seq<char>>, k: int)
    requires
        0 <= k <= parts.len(),
        ids_from_parts(parts.subrange(0, k)) is Err,
    ensures
        ids_from_parts(parts) == ids_from_parts(parts.subrange(0, k)),
    decreases parts.len() - k,
{
    if k == parts.len() {
        assert(parts.subrange(0, k) =~= parts);
    } else {
        assert(parts.drop_last().subrange(0, k) =~= parts.subrange(0, k));
        lemma_ids_err_extends(parts.drop_last(), k);
    }
}

/// Text without dots is a single piece.
proof fn lemma_split_no_dots(b: Seq<char>)
    requires
        forall|i: int| 0 <= i < b.len() ==> b[i] != '.',
    ensures
        split_dots(b) == seq![b],
    decreases b.len(),
{
    if b.len() > 0 {
        lemma_split_no_dots(b.drop_last());
        assert(b.drop_last().push(b.last()) =~= b);
        assert(split_dots(b) =~= seq![b]);
    } else {
        assert(b =~= Seq::<char>::empty());
    }
}

/// A dot followed by text without dots adds that text as a new piece.
proof fn lemma_split_dot_then(a: Seq<char>, b: Seq<char>)
    requires
        forall|i: int| 0 <= i < b.len() ==> b[i] != '.',
    ensures
        split_dots(a.push('.') + b) == split_dots(a).push(b),
    decreases b.len(),
{
    if b.len() == 0 {
        assert(a.push('.') + b =~= a.push('.'));
        assert(a.push('.').drop_last() =~= a);
        assert(b =~= Seq::<char>::empty());
    } else {
        lemma_split_dot_then(a, b.drop_last());
        assert((a.push('.') + b).drop_last() =~= a.push('.') + b.drop_last());
        assert(b.drop_last().push(b.last()) =~= b);
        assert(split_dots(a.push('.') + b) =~= split_dots(a).push(b));
    }
}

proof fn lemma_split_path_text(ids: Seq<u32>)
    requires
        ids.len() >= 1,
    ensures
        split_dots(path_text(ids)) == Seq::new(ids.len(), |k: int| decimal(ids[k] as nat)),
    decreases ids.len(),
{
    lemma_decimal_digits(ids.last() as nat);
    if ids.len() == 1 {
        lemma_split_no_dots(decimal(ids[0] as nat));
        assert(split_dots(path_text(ids)) =~= Seq::new(ids.len(), |k: int| decimal(ids[k] as nat)));
    } else {
        lemma_split_path_text(ids.drop_last());
        lemma_split_dot_then(path_text(ids.drop_last()), decimal(ids.last() as nat));
        assert(split_dots(path_text(ids)) =~= Seq::new(ids.len(), |k: int| decimal(ids[k] as nat)));
    }
}

proof fn lemma_ids_from_decimals(ids: Seq<u32>)
    requires
        forall|i: int| 0 <= i < ids.len() ==> ids[i] != 0,
    ensures
        ids_from_parts(Seq::new(ids.len(), |k: int| decimal(ids[k] as nat))) == Ok::<
            Seq<u32>,
            FixtureError,
        >(ids),
    decreases ids.len(),
{
    let parts = Seq::new(ids.len(), |k: int| decimal(ids[k] as nat));
    if ids.len() == 0 {
        assert(ids =~= Seq::<u32>::empty());
    } else {
        lemma_ids_from_decimals(ids.drop_last());
        assert(parts.drop_last() =~= Seq::new(
            ids.drop_last().len(),
            |k: int| decimal(ids.drop_last()[k] as nat),
        ));
        lemma_parse_decimal(ids.last() as nat, u32::MAX as nat);
        assert(ids.drop_last().push(ids.last()) =~= ids);
    }
}

/// Law: writing a fixture path as text and reading the text back gives the
/// same path.
pub proof fn law_fixture_path_text_round_trip(p: FixturePath)
    requires
        1 <= p@.len() <= 8,
        forall|i: int| 0 <= i < p@.len() ==> #[trigger] p@[i] != 0,
    ensures
        fixture_path_from_text(path_text(p@)) == Ok::<Seq<u32>, FixtureError>(p@),
{
    lemma_split_path_text(p@);
    lemma_ids_from_decimals(p@);
}

/// Law: writing a fixture id as text and reading it back gives the same id.
pub proof fn law_fixture_id_text_round_trip(id: FixtureId)
    requires
        id@ != 0,
    ensures
        fixture_id_from_text(decimal(id@ as nat)) == Ok::<u32, FixtureError>(id@),
{
    lemma_parse_decimal(id@ as nat, u32::MAX as nat);
}

impl FixturePath {
    /// The path written as its ids joined by dots.
    pub fn to_string(&self) -> (res: String)
        ensures
            res@ == path_text(self@),
    {
        let l = self.len();
        let mut s = String::new();
        let mut i: usize = 0;
        proof {
            reveal_strlit(".");
        }
        assert(self@.subrange(0, 0) =~= Seq::<u32>::empty());
        while i < l
            invariant
                l == self@.len(),
                l <= 8,
                i <= l,
                s@ == path_text(self@.subrange(0, i as int)),
            decreases l - i,
        {
            let ghost before = s@;
            proof {
                reveal_strlit(".");
            }
            if i > 0 {
                s.append(".");
            }
            let ghost mid = s@;
            assert(i > 0 ==> mid =~= before.push('.'));
            assert(i == 0 ==> mid =~= Seq::<char>::empty());
            let id = self.ids[i];
            push_decimal(&mut s, id.0 as u64);
            let ghost sub = self@.subrange(0, i + 1);
            assert(sub.drop_last() =~= self@.subrange(0, i as int));
            assert(sub.last() == id.0);
            assert(i == 0 ==> sub[0] == id.0);
            assert(s@ == mid + decimal(id.0 as nat));
            assert(s@ =~= path_text(sub));
            i = i + 1;
        }
        assert(self@.subrange(0, l as int) =~= self@);
        s
    }

    fn empty() -> (res: FixturePath)
        ensures
            res@ == Seq::<u32>::empty(),
    {
        let res = FixturePath { ids: Self::padding(), len: 0 };
        assert(res@ =~= Seq::<u32>::empty());
        res
    }

    /// Reads a fixture path from its text (ids joined by dots).
    pub fn from_str(s: &str) -> (res: Result<FixturePath, FixtureError>)
        ensures
            match fixture_path_from_text(s@) {
                Ok(ids) => res is Ok && res->Ok_0@ == ids,
                Err(e) => res == Err::<FixturePath, FixtureError>(e),
            },
    {
        let cs = chars_of(s);
        let n = cs.len();
        let mut starts: Vec<usize> = Vec::new();
        let mut ends: Vec<usize> = Vec::new();
        let mut start: usize = 0;
        let mut i: usize = 0;
        assert(cs@.subrange(0, 0) =~= Seq::<char>::empty());
        assert(split_dots(cs@.subrange(0, 0)) =~= pieces(cs@, starts@, ends@).push(
            cs@.subrange(0, 0),
        ));
        while i < n
            invariant
                n == cs@.len(),
                i <= n,
                start <= i,
                starts@.len() == ends@.len(),
                forall|k: int| 0 <= k < starts@.len() ==> starts@[k] <= #[trigger] ends@[k] <= i,
                split_dots(cs@.subrange(0, i as int)) == pieces(cs@, starts@, ends@).push(
                    cs@.subrange(start as int, i as int),
                ),
            decreases n - i,
        {
            let ghost prev = cs@.subrange(0, i as int);
            let ghost old_pieces = pieces(cs@, starts@, ends@);
            let ghost old_start = start;
            assert(cs@.subrange(0, i + 1).drop_last() =~= prev);
            if cs[i] == '.' {
                starts.push(start);
                ends.push(i);
                start = i + 1;
                assert(pieces(cs@, starts@, ends@) =~= old_pieces.push(
                    cs@.subrange(old_start as int, i as int),
                ));
                assert(cs@.subrange(start as int, i + 1) =~= Seq::<char>::empty());
            } else {
                assert(cs@.subrange(start as int, i as int).push(cs@[i as int]) =~= cs@.subrange(
                    start as int,
                    i + 1,
                ));
            }
            i = i + 1;
            assert(split_dots(cs@.subrange(0, i as int)) =~= pieces(cs@, starts@, ends@).push(
                cs@.subrange(start as int, i as int),
            ));
        }
        let ghost before = pieces(cs@, starts@, ends@);
        starts.push(start);
        ends.push(n);
        let ghost parts = pieces(cs@, starts@, ends@);
        assert(cs@.subrange(0, n as int) =~= cs@);
        assert(parts =~= before.push(cs@.subrange(start as int, n as int)));
        assert(split_dots(s@) == parts);
        if starts.len() > 8 {
            return Err(FixtureError::FixturePathHasTooManyParts);
        }
        let count = starts.len();
        let mut path = Self::empty();
        let mut k: usize = 0;
        assert(parts.subrange(0, 0) =~= Seq::<Seq<char>>::empty());
        while k < count
            invariant
                count == starts@.len(),
                count == ends@.len(),
                count <= 8,
                n == cs@.len(),
                parts == pieces(cs@, starts@, ends@),
                split_dots(s@) == parts,
                forall|j: int| 0 <= j < starts@.len() ==> starts@[j] <= #[trigger] ends@[j] <= n,
                k <= count,
                path@.len() == k,
                ids_from_parts(parts.subrange(0, k as int)) == Ok::<Seq<u32>, FixtureError>(path@),
            decreases count - k,
        {
            let ghost sub = parts.subrange(0, k + 1);
            assert(sub.drop_last() =~= parts.subrange(0, k as int));
            assert(sub.last() == cs@.subrange(starts@[k as int] as int, ends@[k as int] as int));
            match FixtureId::from_chars(cs.as_slice(), starts[k], ends[k]) {
                Err(e) => {
                    proof {
                        lemma_ids_err_extends(parts, k + 1);
                    }
                    return Err(e);
                },
                Ok(id) => {
                    path.push(id);
                },
            }
            k = k + 1;
        }
        assert(parts.subrange(0, count as int) =~= parts);
        Ok(path)
    }
}

impl FixturePath {
    /// The paths are equal: they hold the same ids.
    pub fn same(&self, other: &FixturePath) -> (res: bool)
        ensures
            res == (*self == *other),
            res == (self@ == other@),
    {
        proof {
            use_type_invariant(self);
            use_type_invariant(other);
        }
        let r = self.eq(other);
        proof {
            if r {
                assert(self.len == other.len) by {
                    assert(self@.len() == other@.len());
                }
                assert forall|i: int| 0 <= i < 8 implies self.ids@[i] == other.ids@[i] by {
                    if i < self.len {
                        assert(self@[i] == other@[i]);
                        assert(self.ids@[i]@ == other.ids@[i]@);
                    } else {
                        assert(self.ids@[i]@ == 1);
                        assert(other.ids@[i]@ == 1);
                    }
                    assert(self.ids@[i].0 == other.ids@[i].0);
                }
                assert(self.ids@ =~= other.ids@);
                assert(self.ids == other.ids);
            }
        }
        r
    }
}

impl PartialEq for FixturePath {
    fn eq(&self, other: &FixturePath) -> (res: bool) {
        let l = self.len();
        if l != other.len() {
            return false;
        }
        let r = Self::same_prefix(self, other, l);
        assert(self@.subrange(0, l as int) =~= self@);
        assert(other@.subrange(0, l as int) =~= other@);
        r
    }
}

impl vstd::std_specs::cmp::PartialEqSpecImpl for FixturePath {
    open spec fn obeys_eq_spec() -> bool {
        true
    }

    open spec fn eq_spec(&self, other: &FixturePath) -> bool {
        self@ == other@
    }
}

/// How paths `a` and `b` compare from position `i` on: by the first id in
/// which they differ, and by their lengths when one is a prefix of the other.
pub open spec fn path_order_from(a: Seq<u32>, b: Seq<u32>, i: int) -> Ordering
    decreases a.len() - i,
{
    if i < 0 || i >= a.len() || i >= b.len() {
        if a.len() < b.len() {
            Ordering::Less
        } else if a.len() == b.len() {
            Ordering::Equal
        } else {
            Ordering::Greater
        }
    } else if a[i] < b[i] {
        Ordering::Less
    } else if a[i] > b[i] {
        Ordering::Greater
    } else {
        path_order_from(a, b, i + 1)
    }
}

/// How paths `a` and `b` compare: by the first id in which they differ, and
/// a path comes before the paths it is a prefix of.
pub open spec fn path_order(a: Seq<u32>, b: Seq<u32>) -> Ordering {
    path_order_from(a, b, 0)
}

impl PartialOrd for FixturePath {
    fn partial_cmp(&self, other: &FixturePath) -> (res: Option<Ordering>) {
        proof {
            use_type_invariant(self);
            use_type_invariant(other);
        }
        let a = self.as_slice();
        let b = other.as_slice();
        let mut i: usize = 0;
        let ghost mut k: int = 0;
        while i < a.len() && i < b.len()
            invariant
                a@.len() == self@.len(),
                b@.len() == other@.len(),
                forall|j: int| 0 <= j < a@.len() ==> #[trigger] a@[j]@ == self@[j],
                forall|j: int| 0 <= j < b@.len() ==> #[trigger] b@[j]@ == other@[j],
                k == i,
                0 <= i <= a@.len(),
                i <= b@.len(),
                path_order(self@, other@) == path_order_from(self@, other@, k),
            decreases a@.len() - i,
        {
            let x = a[i].as_u32();
            let y = b[i].as_u32();
            if x < y {
                return Some(Ordering::Less);
            }
            if x > y {
                return Some(Ordering::Greater);
            }
            i = i + 1;
            proof {
                k = k + 1;
            }
        }
        if a.len() < b.len() {
            Some(Ordering::Less)
        } else if a.len() == b.len() {
            Some(Ordering::Equal)
        } else {
            Some(Ordering::Greater)
        }
    }
}

impl vstd::std_specs::cmp::PartialOrdSpecImpl for FixturePath {
    open spec fn obeys_partial_cmp_spec() -> bool {
        true
    }

    open spec fn partial_cmp_spec(&self, other: &FixturePath) -> Option<Ordering> {
        Some(path_order(self@, other@))
    }
}

proof fn lemma_path_order_equal(a: Seq<u32>, b: Seq<u32>, i: int)
    requires
        0 <= i,
    ensures
        (path_order_from(a, b, i) is Equal) <==> (a.len() == b.len() && forall|j: int|
            i <= j < a.len() ==> a[j] == b[j]),
    decreases a.len() - i,
{
    if i < a.len() && i < b.len() {
        lemma_path_order_equal(a, b, i + 1);
    }
}

proof fn lemma_path_order_flip(a: Seq<u32>, b: Seq<u32>, i: int)
    requires
        0 <= i,
    ensures
        path_order_from(a, b, i) is Less <==> path_order_from(b, a, i) is Greater,
    decreases a.len() - i,
{
    if i < a.len() && i < b.len() {
        lemma_path_order_flip(a, b, i + 1);
    }
}

/// Law: two paths compare equal exactly when they are the same path, and
/// `a` comes before `b` exactly when `b` comes after `a`.
pub proof fn law_path_order(a: FixturePath, b: FixturePath)
    ensures
        (path_order(a@, b@) is Equal) <==> a@ == b@,
        (path_order(a@, b@) is Less) <==> (path_order(b@, a@) is Greater),
{
    lemma_path_order_equal(a@, b@, 0);
    lemma_path_order_flip(a@, b@, 0);
    if a@.len() == b@.len() && forall|j: int| 0 <= j < a@.len() ==> a@[j] == b@[j] {
        assert(a@ =~= b@);
    }
}

proof fn lemma_ids_from_parts_len(parts: Seq<Seq<char>>)
    ensures
        ids_from_parts(parts) matches Ok(ids) ==> ids.len() == parts.len(),
    decreases parts.len(),
{
    if parts.len() > 0 {
        lemma_ids_from_parts_len(parts.drop_last());
    }
}

/// Law: the paths that the constructors build are never empty and hold at
/// most [`FixturePath::MAX_LEN`] ids: a single id or a pair; a path that
/// gains an id, is extended or has its last id replaced keeps at least one;
/// a path read from text holds one id per dot-separated piece, at least one
/// and at most [`FixturePath::MAX_LEN`]. Only a path made from an empty
/// slice of ids is empty.
pub proof fn law_built_paths_not_empty(
    a: FixtureId,
    b: FixtureId,
    p: FixturePath,
    ids: Seq<FixtureId>,
    s: Seq<char>,
)
    requires
        p.well_formed(),
    ensures
        spec_single(a)@.len() == 1,
        spec_pair(a@, b@)@.len() == 2,
        p@.len() < 8 ==> 1 <= p@.push(a@).len() <= 8,
        p@.len() >= 1 ==> p@.update(p@.len() - 1, a@).len() == p@.len(),
        p@.len() >= 1 && p@.len() + ids.len() <= 8 ==> 1 <= (p@ + ids.map_values(|id: FixtureId| id@)).len() <= 8,
        ids.map_values(|id: FixtureId| id@).len() == ids.len(),
        fixture_path_from_text(s) matches Ok(v) ==> 1 <= v.len() <= 8,
{
    assert(spec_single(a)@ =~= seq![a@]);
    assert(spec_pair(a@, b@)@ =~= seq![a@, b@]);
    lemma_split_dots_len(s);
    lemma_ids_from_parts_len(split_dots(s));
}

/// Law: two paths are equal exactly when they hold the same ids, and paths
/// holding the same ids are the same value: the unused slots past a path's
/// length take no part in equality, nor (the values being identical) in
/// hashing.
pub proof fn law_path_equality(a: FixturePath, b: FixturePath)
    requires
        a.well_formed(),
        b.well_formed(),
    ensures
        vstd::std_specs::cmp::PartialEqSpec::eq_spec(&a, &b) <==> a@ == b@,
        a@ == b@ <==> a == b,
        a@ == b@ <==> (a@.len() == b@.len() && forall|i: int| 0 <= i < a@.len() ==> a@[i] == b@[i]),
{
    if a@.len() == b@.len() && forall|i: int| 0 <= i < a@.len() ==> a@[i] == b@[i] {
        assert(a@ =~= b@);
    }
    if a@ == b@ {
        assert(a.len == b.len) by {
            assert(a@.len() == b@.len());
        }
        assert forall|i: int| 0 <= i < 8 implies a.ids@[i] == b.ids@[i] by {
            if i < a.len {
                assert(a@[i] == b@[i]);
                assert(a.ids@[i]@ == b.ids@[i]@);
            } else {
                assert(a.ids@[i]@ == 1);
                assert(b.ids@[i]@ == 1);
            }
            assert(a.ids@[i].0 == b.ids@[i].0);
        }
        assert(a.ids@ =~= b.ids@);
        assert(a.ids == b.ids);
    }
}

impl From<FixtureId> for FixturePath {
    fn from(id: FixtureId) -> (res: FixturePath) {
        FixturePath::new(id)
    }
}

impl vstd::std_specs::convert::FromSpecImpl<FixtureId> for FixturePath {
    open spec fn obeys_from_spec() -> bool {
        true
    }

    open spec fn from_spec(v: FixtureId) -> FixturePath {
        spec_single(v)
    }
}

impl FixturePath {
    /// The path of the ids in `slice`, which holds at most
    /// [`FixturePath::MAX_LEN`] of them.
    pub fn from_slice(slice: &[FixtureId]) -> (res: FixturePath)
        requires
            slice@.len() <= 8,
        ensures
            res@ == slice@.map_values(|id: FixtureId| id@),
    {
        let mut ids = Self::padding();
        let mut i: usize = 0;
        while i < slice.len()
            invariant
                slice@.len() <= 8,
                i <= slice@.len(),
                forall|j: int| 0 <= j < i ==> #[trigger] ids@[j] == slice@[j],
                forall|j: int| 0 <= j < i ==> #[trigger] ids@[j]@ != 0,
                forall|j: int| i <= j < 8 ==> #[trigger] ids@[j]@ == 1,
            decreases slice@.len() - i,
        {
            let id = slice[i];
            proof {
                use_type_invariant(&id);
            }
            ids.set(i, id);
            i = i + 1;
        }
        let res = FixturePath { ids, len: i as u8 };
        assert(res@ =~= slice@.map_values(|id: FixtureId| id@));
        res
    }
}

/// The message describing a fixture error.
pub open spec fn fixture_error_message(e: FixtureError) -> Seq<char> {
    match e {
        FixtureError::NotFound(id) => "Fixture with path "@ + path_text(id@) + " not found"@,
        FixtureError::NoChannelValueSourceFound => "No channel value source found"@,
        FixtureError::EmptyPatch => "Patch is empty"@,
        FixtureError::DuplicateChannelType => "Duplicate channel type"@,
        FixtureError::InvalidDataLength => "Invalid data length"@,
        FixtureError::NoFunctionAccess => "Tried to access values for a NoFunction channel"@,
        FixtureError::FixtureTypeNotFound(name) => "Fixture type "@ + name@ + " not found"@,
        FixtureError::FixtureTypeModeNotFound(fixture_type, fixture_mode) => "Fixture type mode "@ + fixture_type@ + " for type "@ + decimal(fixture_mode as nat) + " not found"@,
        FixtureError::NoDisplayColor(fixture_id) => "Fixture "@ + decimal(fixture_id as nat) + " has no color feature"@,
        FixtureError::FixturePathHasTooManyParts => "Fixture path has too many parts"@,
        FixtureError::FixturePathIsEmpty => "Fixture path is empty"@,
        FixtureError::FixtureIdParseError(err) => "Fixture ID parse error: "@ + int_error_text(err),
        FixtureError::FixtureIdIsZero => "Fixture ID is zero"@,
        FixtureError::GdtfFixtureDmxModeNotFound(mode) => "GDTF fixture DMX mode "@ + mode@ + " not found"@,
        FixtureError::GdtfChannelValueNotConvertible(dmx_channel_name) => "GDTF channel value for channel "@ + dmx_channel_name@ + " not convertible"@,
        FixtureError::GdtfMaxDmxOffsetNotFound => "GDTF fixture DMX mode has no max offset"@,
        FixtureError::GdtfAttributeNotFound(attribute) => "GDTF attribute "@ + attribute_text(attribute) + " not found"@,
        FixtureError::GdtfChannelNotFound(channel) => "GDTF channel "@ + channel@ + " not found"@,
        FixtureError::GdtfFixtureTypeNotFound(type_id) => "GDTF fixture type with id "@ + uuid_text(type_id) + " not found"@,
        FixtureError::GdtfChannelValueNotFound(channel) => "GDTF value for channel "@ + channel@ + " not found"@,
        FixtureError::GdtfAttributeValueNotFound(attribute) => "GDTF value for attribute "@ + attribute_text(attribute) + " not found"@,
        FixtureError::GdtfNoChannelForAttributeFound(attribute) => "GDTF no channel for attribute "@ + attribute@ + " found"@,
        FixtureError::GdtfChannelHasNoAttribute(channel) => "GDTF channel "@ + channel@ + " has no attribute"@,
        FixtureError::GdtfChannelFunctionMismatch(channel1, channel2) => "GDTF channel function idx mismatch: "@ + decimal(channel1 as nat) + " != "@ + decimal(channel2 as nat),
        FixtureError::GdtfAtributeHasNoName => "GDTF attribute has no name"@,
        FixtureError::GdtfFixtureCouldNotProduceRgbColor(fixture_id) => "GDTF fixture with id "@ + decimal(fixture_id as nat) + " could not produce RGB color value"@,
        FixtureError::GdtfFixtureHasNoColorWheelColor(fixture_id) => "GDTF fixture with id "@ + decimal(fixture_id as nat) + " has no color wheel color"@,
        FixtureError::GdtfFixtureCouldNotProduceDisplayColor(fixture_id) => "GDTF fixture with id "@ + decimal(fixture_id as nat) + " could not produce display color value"@,
        FixtureError::GdtfFixtureMasterGeometryNotFound(fixture_id) => "GDTF fixture with id "@ + decimal(fixture_id as nat) + " has no master geometry"@,
        FixtureError::GdtfFixtureDmxModeGeometryNotFound(fixture_id) => "The DMX mode for GDTF fixture with id "@ + decimal(fixture_id as nat) + " has no associated geometry"@,
    }
}

impl FixtureError {
    /// The message describing the error.
    pub fn to_string(&self) -> (res: String)
        ensures
            res@ == fixture_error_message(*self),
    {
        let mut s = String::new();
        match self {
            FixtureError::NotFound(id) => {
                s.append("Fixture with path ");
                s.append(id.to_string().as_str());
                s.append(" not found");
            },
            FixtureError::NoChannelValueSourceFound => {
                s.append("No channel value source found");
            },
            FixtureError::EmptyPatch => {
                s.append("Patch is empty");
            },
            FixtureError::DuplicateChannelType => {
                s.append("Duplicate channel type");
            },
            FixtureError::InvalidDataLength => {
                s.append("Invalid data length");
            },
            FixtureError::NoFunctionAccess => {
                s.append("Tried to access values for a NoFunction channel");
            },
            FixtureError::FixtureTypeNotFound(name) => {
                s.append("Fixture type ");
                s.append(name.as_str());
                s.append(" not found");
            },
            FixtureError::FixtureTypeModeNotFound(fixture_type, fixture_mode) => {
                s.append("Fixture type mode ");
                s.append(fixture_type.as_str());
                s.append(" for type ");
                push_decimal(&mut s, *fixture_mode as u64);
                s.append(" not found");
            },
            FixtureError::NoDisplayColor(fixture_id) => {
                s.append("Fixture ");
                push_decimal(&mut s, *fixture_id as u64);
                s.append(" has no color feature");
            },
            FixtureError::FixturePathHasTooManyParts => {
                s.append("Fixture path has too many parts");
            },
            FixtureError::FixturePathIsEmpty => {
                s.append("Fixture path is empty");
            },
            FixtureError::FixtureIdParseError(err) => {
                s.append("Fixture ID parse error: ");
                s.append(err.to_string().as_str());
            },
            FixtureError::FixtureIdIsZero => {
                s.append("Fixture ID is zero");
            },
            FixtureError::GdtfFixtureDmxModeNotFound(mode) => {
                s.append("GDTF fixture DMX mode ");
                s.append(mode.as_str());
                s.append(" not found");
            },
            FixtureError::GdtfChannelValueNotConvertible(dmx_channel_name) => {
                s.append("GDTF channel value for channel ");
                s.append(dmx_channel_name.as_str());
                s.append(" not convertible");
            },
            FixtureError::GdtfMaxDmxOffsetNotFound => {
                s.append("GDTF fixture DMX mode has no max offset");
            },
            FixtureError::GdtfAttributeNotFound(attribute) => {
                s.append("GDTF attribute ");
                s.append(attribute.to_string().as_str());
                s.append(" not found");
            },
            FixtureError::GdtfChannelNotFound(channel) => {
                s.append("GDTF channel ");
                s.append(channel.as_str());
                s.append(" not found");
            },
            FixtureError::GdtfFixtureTypeNotFound(type_id) => {
                s.append("GDTF fixture type with id ");
                push_uuid(&mut s, *type_id);
                s.append(" not found");
            },
            FixtureError::GdtfChannelValueNotFound(channel) => {
                s.append("GDTF value for channel ");
                s.append(channel.as_str());
                s.append(" not found");
            },
            FixtureError::GdtfAttributeValueNotFound(attribute) => {
                s.append("GDTF value for attribute ");
                s.append(attribute.to_string().as_str());
                s.append(" not found");
            },
            FixtureError::GdtfNoChannelForAttributeFound(attribute) => {
                s.append("GDTF no channel for attribute ");
                s.append(attribute.as_str());
                s.append(" found");
            },
            FixtureError::GdtfChannelHasNoAttribute(channel) => {
                s.append("GDTF channel ");
                s.append(channel.as_str());
                s.append(" has no attribute");
            },
            FixtureError::GdtfChannelFunctionMismatch(channel1, channel2) => {
                s.append("GDTF channel function idx mismatch: ");
                push_decimal(&mut s, *channel1 as u64);
                s.append(" != ");
                push_decimal(&mut s, *channel2 as u64);
            },
            FixtureError::GdtfAtributeHasNoName => {
                s.append("GDTF attribute has no name");
            },
            FixtureError::GdtfFixtureCouldNotProduceRgbColor(fixture_id) => {
                s.append("GDTF fixture with id ");
                push_decimal(&mut s, *fixture_id as u64);
                s.append(" could not produce RGB color value");
            },
            FixtureError::GdtfFixtureHasNoColorWheelColor(fixture_id) => {
                s.append("GDTF fixture with id ");
                push_decimal(&mut s, *fixture_id as u64);
                s.append(" has no color wheel color");
            },
            FixtureError::GdtfFixtureCouldNotProduceDisplayColor(fixture_id) => {
                s.append("GDTF fixture with id ");
                push_decimal(&mut s, *fixture_id as u64);
                s.append(" could not produce display color value");
            },
            FixtureError::GdtfFixtureMasterGeometryNotFound(fixture_id) => {
                s.append("GDTF fixture with id ");
                push_decimal(&mut s, *fixture_id as u64);
                s.append(" has no master geometry");
            },
            FixtureError::GdtfFixtureDmxModeGeometryNotFound(fixture_id) => {
                s.append("The DMX mode for GDTF fixture with id ");
                push_decimal(&mut s, *fixture_id as u64);
                s.append(" has no associated geometry");
            },
        }
        assert(s@ =~= fixture_error_message(*self));
        s
    }
}

} // verus!
