use vstd::prelude::*;
use vstd::string::StringExecFns;
use crate::decimal::rat_str;
use crate::decimal::rational_string;

verus! {

/// One leaf value of the rendering context.
///
/// Rationals keep their numerator and denominator: `Pair` is the
/// two-element array form, `Ratio` stands for the float approximation
/// `numerator / denominator`, and `Scaled` stands for the float product
/// `ticks * (numerator / denominator)`.  The float values themselves are
/// computed only where the context is turned into the renderer's value
/// tree, outside this crate's verified code.
#[derive(Debug, Clone, PartialEq)]
pub enum Scal {
    Str(String),
    Int(i64),
    UInt(u64),
    Bool(bool),
    Pair(i32, i32),
    Ratio(i32, i32),
    Scaled(i64, i32, i32),
}

/// The mathematical shape of one leaf value.
pub enum ScalV {
    VStr(Seq<char>),
    VInt(int),
    VUInt(int),
    VBool(bool),
    VPair(int, int),
    VRatio(int, int),
    VScaled(int, int, int),
}

impl View for Scal {
    type V = ScalV;

    open spec fn view(&self) -> ScalV {
        match self {
            Scal::Str(s) => ScalV::VStr(s@),
            Scal::Int(i) => ScalV::VInt(*i as int),
            Scal::UInt(u) => ScalV::VUInt(*u as int),
            Scal::Bool(b) => ScalV::VBool(*b),
            Scal::Pair(n, d) => ScalV::VPair(*n as int, *d as int),
            Scal::Ratio(n, d) => ScalV::VRatio(*n as int, *d as int),
            Scal::Scaled(t, n, d) => ScalV::VScaled(*t as int, *n as int, *d as int),
        }
    }
}

/// The mathematical shape of a key-value entry list.
pub open spec fn entries_view(s: Seq<(String, Scal)>) -> Seq<(Seq<char>, ScalV)> {
    s.map_values(|p: (String, Scal)| (p.0@, p.1@))
}

/// The per-stream mapping of the context: an ordered entry list whose
/// later entries shadow earlier ones with the same key.
#[derive(Debug, Clone, PartialEq)]
pub struct StreamCtx {
    pub entries: Vec<(String, Scal)>,
}

impl View for StreamCtx {
    type V = Seq<(Seq<char>, ScalV)>;

    open spec fn view(&self) -> Seq<(Seq<char>, ScalV)> {
        entries_view(self.entries@)
    }
}

/// One value of the root mapping: a leaf, one stream mapping (the best
/// stream aliases), or the ordered list of all stream mappings.
#[derive(Debug, Clone, PartialEq)]
pub enum RootVal {
    Leaf(Scal),
    One(StreamCtx),
    Many(Vec<StreamCtx>),
}

/// The mathematical shape of one root value.
pub enum RootV {
    VLeaf(ScalV),
    VOne(Seq<(Seq<char>, ScalV)>),
    VMany(Seq<Seq<(Seq<char>, ScalV)>>),
}

impl View for RootVal {
    type V = RootV;

    open spec fn view(&self) -> RootV {
        match self {
            RootVal::Leaf(s) => RootV::VLeaf(s@),
            RootVal::One(s) => RootV::VOne(s@),
            RootVal::Many(v) => RootV::VMany(v@.map_values(|s: StreamCtx| s@)),
        }
    }
}

/// The whole rendering context: the root mapping, in insertion order.
#[derive(Debug, Clone, PartialEq)]
pub struct Ctx {
    pub entries: Vec<(String, RootVal)>,
}

/// The mathematical shape of the root entry list.
pub open spec fn root_view(s: Seq<(String, RootVal)>) -> Seq<(Seq<char>, RootV)> {
    s.map_values(|p: (String, RootVal)| (p.0@, p.1@))
}

impl View for Ctx {
    type V = Seq<(Seq<char>, RootV)>;

    open spec fn view(&self) -> Seq<(Seq<char>, RootV)> {
        root_view(self.entries@)
    }
}

/// The value that an entry list gives a key: the last entry with that
/// key wins, as repeated insertions into a mapping would leave it.
pub open spec fn find_last<V>(s: Seq<(Seq<char>, V)>, key: Seq<char>) -> Option<V>
    decreases s.len(),
{
    if s.len() == 0 {
        None
    } else if s.last().0 == key {
        Some(s.last().1)
    } else {
        find_last(s.drop_last(), key)
    }
}

pub proof fn lemma_find_last_skip<V>(s: Seq<(Seq<char>, V)>, key: Seq<char>, i: int)
    requires
        0 <= i <= s.len(),
        forall|j: int| i <= j < s.len() ==> (#[trigger] s[j]).0 != key,
    ensures
        find_last(s, key) == find_last(s.take(i), key),
    decreases s.len() - i,
{
    if i < s.len() {
        lemma_find_last_skip(s, key, i + 1);
        assert(s.take(i + 1).drop_last() =~= s.take(i));
        assert(s.take(i + 1).last() == s[i]);
    } else {
        assert(s.take(i) =~= s);
    }
}

/// A lookup returns the entry at `p` when no later entry carries its
/// key.
pub proof fn lemma_find_last_at<V>(s: Seq<(Seq<char>, V)>, key: Seq<char>, p: int)
    requires
        0 <= p < s.len(),
        s[p].0 == key,
        forall|j: int| p < j < s.len() ==> (#[trigger] s[j]).0 != key,
    ensures
        find_last(s, key) == Some(s[p].1),
{
    lemma_find_last_skip(s, key, p + 1);
    assert(s.take(p + 1).last() == s[p]);
}

/// A lookup falls through a suffix none of whose entries carry the key.
pub proof fn lemma_find_last_concat_miss<V>(
    a: Seq<(Seq<char>, V)>,
    b: Seq<(Seq<char>, V)>,
    key: Seq<char>,
)
    requires
        forall|j: int| 0 <= j < b.len() ==> (#[trigger] b[j]).0 != key,
    ensures
        find_last(a + b, key) == find_last(a, key),
{
    assert forall|j: int| a.len() <= j < (a + b).len() implies (#[trigger] (a + b)[j]).0
        != key by {
        assert((a + b)[j] == b[j - a.len()]);
    }
    lemma_find_last_skip(a + b, key, a.len() as int);
    assert((a + b).take(a.len() as int) =~= a);
}

/// Appends one entry to a stream entry list.
pub fn push_entry(entries: &mut Vec<(String, Scal)>, key: String, val: Scal)
    ensures
        entries_view(final(entries)@) == entries_view(old(entries)@).push((key@, val@)),
{
    let ghost pre = entries@;
    let ghost kv = key@;
    let ghost vv = val@;
    entries.push((key, val));
    proof {
        assert(entries_view(pre.push(entries@.last())) =~= entries_view(pre).push((kv, vv)));
    }
}

/// Appends one entry to the root entry list.
pub fn push_root(entries: &mut Vec<(String, RootVal)>, key: String, val: RootVal)
    ensures
        root_view(final(entries)@) == root_view(old(entries)@).push((key@, val@)),
{
    let ghost pre = entries@;
    let ghost kv = key@;
    let ghost vv = val@;
    entries.push((key, val));
    proof {
        assert(root_view(pre.push(entries@.last())) =~= root_view(pre).push((kv, vv)));
    }
}

/// The three context entries that one rational field always yields: the
/// `[numerator, denominator]` pair under the field's key, the printed
/// `numerator/denominator` form under `<key>_str`, and the float
/// approximation under `<key>_float`.
pub open spec fn rational_forms(key: Seq<char>, n: int, d: int) -> Seq<(Seq<char>, ScalV)> {
    seq![
        (key, ScalV::VPair(n, d)),
        (key + "_str"@, ScalV::VStr(rat_str(n, d))),
        (key + "_float"@, ScalV::VRatio(n, d)),
    ]
}

/// Appends the three forms of a rational field to a stream entry list.
pub fn push_rational(entries: &mut Vec<(String, Scal)>, key: &str, n: i32, d: i32)
    ensures
        entries_view(final(entries)@) == entries_view(old(entries)@)
            + rational_forms(key@, n as int, d as int),
{
    let ghost pre = entries_view(old(entries)@);
    push_entry(entries, key.to_owned(), Scal::Pair(n, d));
    let mut key_str = key.to_owned();
    key_str.append("_str");
    push_entry(entries, key_str, Scal::Str(rational_string(n, d)));
    let mut key_float = key.to_owned();
    key_float.append("_float");
    push_entry(entries, key_float, Scal::Ratio(n, d));
    proof {
        assert(entries_view(entries@) =~= pre + rational_forms(key@, n as int, d as int));
    }
}

/// Every rational field stands in the context in three forms: the pair,
/// the printed string, and the float approximation, under the field's
/// key and its `_str` and `_float` companions.
pub proof fn lemma_rational_three_forms(key: Seq<char>, n: int, d: int)
    ensures
        rational_forms(key, n, d).len() == 3,
        rational_forms(key, n, d)[0] == (key, ScalV::VPair(n, d)),
        rational_forms(key, n, d)[1] == (key + "_str"@, ScalV::VStr(rat_str(n, d))),
        rational_forms(key, n, d)[2] == (key + "_float"@, ScalV::VRatio(n, d)),
{
}

/// Looks a key up in a stream mapping; the last entry with the key wins.
pub fn stream_get<'a>(s: &'a StreamCtx, key: &String) -> (r: Option<&'a Scal>)
    ensures
        match r {
            Some(v) => find_last(s@, key@) == Some(v@),
            None => find_last(s@, key@) is None,
        },
{
    let n = s.entries.len();
    let mut i = n;
    while i > 0
        invariant
            i <= n,
            n == s.entries.len(),
            forall|j: int| i <= j < n ==> (#[trigger] s@[j]).0 != key@,
        decreases i,
    {
        i = i - 1;
        if s.entries[i].0 == *key {
            proof {
                lemma_find_last_skip(s@, key@, i + 1);
                assert(s@.take(i + 1).last() == s@[i as int]);
            }
            return Some(&s.entries[i].1);
        }
    }
    proof {
        lemma_find_last_skip(s@, key@, 0);
        assert(s@.take(0) =~= Seq::<(Seq<char>, ScalV)>::empty());
    }
    None
}

/// Looks a key up in the root mapping; the last entry with the key wins.
pub fn root_get<'a>(c: &'a Ctx, key: &String) -> (r: Option<&'a RootVal>)
    ensures
        match r {
            Some(v) => find_last(c@, key@) == Some(v@),
            None => find_last(c@, key@) is None,
        },
{
    let n = c.entries.len();
    let mut i = n;
    while i > 0
        invariant
            i <= n,
            n == c.entries.len(),
            forall|j: int| i <= j < n ==> (#[trigger] c@[j]).0 != key@,
        decreases i,
    {
        i = i - 1;
        if c.entries[i].0 == *key {
            proof {
                lemma_find_last_skip(c@, key@, i + 1);
                assert(c@.take(i + 1).last() == c@[i as int]);
            }
            return Some(&c.entries[i].1);
        }
    }
    proof {
        lemma_find_last_skip(c@, key@, 0);
        assert(c@.take(0) =~= Seq::<(Seq<char>, RootV)>::empty());
    }
    None
}

} // verus!
