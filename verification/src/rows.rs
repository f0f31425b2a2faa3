//! The row data the workflow seeds and reads back, and the comparison
//! logic that classifies a mismatch between an expected and an observed
//! sequence of rows.

use vstd::prelude::*;

verus! {

/// One record of the seeded table: an engine-assigned integer identity
/// and a text name. Two rows are equal when both fields are equal.
pub struct Row {
    pub id: i64,
    pub name: String,
}

/// The mathematical value of a `Row`.
pub struct RowModel {
    pub id: int,
    pub name: Seq<char>,
}

impl View for Row {
    type V = RowModel;

    open spec fn view(&self) -> RowModel {
        RowModel { id: self.id as int, name: self.name@ }
    }
}

/// The views of a sequence of rows.
pub open spec fn rows_view(rows: Seq<Row>) -> Seq<RowModel> {
    rows.map_values(|r: Row| r@)
}

/// The fixed seed dataset: identity 1 named "hello", then identity 2
/// named "world", in that order.
pub open spec fn seed_dataset() -> Seq<RowModel> {
    seq![
        RowModel { id: 1, name: "hello"@ },
        RowModel { id: 2, name: "world"@ },
    ]
}

/// The seed dataset as executable rows.
pub fn seed_rows() -> (v: Vec<Row>)
    ensures
        rows_view(v@) == seed_dataset(),
{
    let mut v: Vec<Row> = Vec::new();
    v.push(Row { id: 1, name: String::from_str("hello") });
    v.push(Row { id: 2, name: String::from_str("world") });
    proof {
        assert(rows_view(v@) =~= seed_dataset());
    }
    v
}

pub fn row_eq(a: &Row, b: &Row) -> (r: bool)
    ensures
        r == (a@ == b@),
{
    let r = a.id == b.id && a.name == b.name;
    r
}

/// How many times `x` occurs in `s`.
pub open spec fn occurrences(s: Seq<RowModel>, x: RowModel) -> nat
    decreases s.len(),
{
    if s.len() == 0 {
        0
    } else {
        occurrences(s.drop_last(), x) + if s.last() == x { 1nat } else { 0nat }
    }
}

/// Two sequences hold the same rows with the same multiplicities,
/// in whatever order.
pub open spec fn same_contents(a: Seq<RowModel>, b: Seq<RowModel>) -> bool {
    forall|x: RowModel| occurrences(a, x) == occurrences(b, x)
}

/// How an observed sequence of rows can differ from the expected one.
#[derive(PartialEq, Eq, Structural, Clone, Copy, Debug)]
pub enum MismatchKind {
    /// The two sequences have different lengths.
    Count,
    /// Same length and same rows, but arranged differently.
    Order,
    /// Same length, but some row's content has no counterpart.
    Content,
}

/// Classification of an observed sequence against an expected one:
/// `None` when they are equal element for element.
pub open spec fn classify(expected: Seq<RowModel>, actual: Seq<RowModel>) -> Option<MismatchKind> {
    if expected == actual {
        None
    } else if expected.len() != actual.len() {
        Some(MismatchKind::Count)
    } else if same_contents(expected, actual) {
        Some(MismatchKind::Order)
    } else {
        Some(MismatchKind::Content)
    }
}

proof fn lemma_occurrences_take(s: Seq<RowModel>, x: RowModel, i: int)
    requires
        0 <= i < s.len(),
    ensures
        occurrences(s.take(i + 1), x) == occurrences(s.take(i), x) + if s[i] == x { 1nat } else { 0nat },
{
    assert(s.take(i + 1).drop_last() =~= s.take(i));
    assert(s.take(i + 1).last() == s[i]);
}

/// A row occurs in a sequence exactly when its occurrence count is positive.
proof fn lemma_occurrences_contains(s: Seq<RowModel>, x: RowModel)
    ensures
        (occurrences(s, x) > 0) == s.contains(x),
    decreases s.len(),
{
    if s.len() > 0 {
        lemma_occurrences_contains(s.drop_last(), x);
        if s.last() == x {
            assert(s.contains(x));
        } else if s.drop_last().contains(x) {
            let i = choose|i: int| 0 <= i < s.drop_last().len() && s.drop_last()[i] == x;
            assert(s[i] == x);
        } else if s.contains(x) {
            let i = choose|i: int| 0 <= i < s.len() && s[i] == x;
            assert(s.drop_last()[i] == x);
        }
    }
}

/// Counts how many rows of `rows` equal `x`.
fn count_occurrences(rows: &Vec<Row>, x: &Row) -> (n: usize)
    ensures
        n == occurrences(rows_view(rows@), x@),
{
    let mut n: usize = 0;
    let mut i: usize = 0;
    while i < rows.len()
        invariant
            0 <= i <= rows@.len(),
            n == occurrences(rows_view(rows@).take(i as int), x@),
            n <= i,
        decreases rows@.len() - i,
    {
        proof {
            lemma_occurrences_take(rows_view(rows@), x@, i as int);
        }
        if row_eq(&rows[i], x) {
            n = n + 1;
        }
        i = i + 1;
    }
    proof {
        assert(rows_view(rows@).take(rows@.len() as int) =~= rows_view(rows@));
    }
    n
}

/// True when every row of `a` occurs in `b` as often as in `a`, and the
/// other way around — that is, when the two sequences hold the same
/// contents regardless of order.
fn contents_agree(a: &Vec<Row>, b: &Vec<Row>) -> (r: bool)
    ensures
        r == same_contents(rows_view(a@), rows_view(b@)),
{
    let ghost av = rows_view(a@);
    let ghost bv = rows_view(b@);
    let mut i: usize = 0;
    while i < a.len()
        invariant
            0 <= i <= a@.len(),
            av == rows_view(a@),
            bv == rows_view(b@),
            forall|j: int| 0 <= j < i ==> occurrences(av, av[j]) == occurrences(bv, av[j]),
        decreases a@.len() - i,
    {
        let ca = count_occurrences(a, &a[i]);
        let cb = count_occurrences(b, &a[i]);
        if ca != cb {
            proof {
                assert(occurrences(av, av[i as int]) != occurrences(bv, av[i as int]));
            }
            return false;
        }
        i = i + 1;
    }
    let mut k: usize = 0;
    while k < b.len()
        invariant
            0 <= k <= b@.len(),
            av == rows_view(a@),
            bv == rows_view(b@),
            forall|j: int| 0 <= j < av.len() ==> occurrences(av, av[j]) == occurrences(bv, av[j]),
            forall|j: int| 0 <= j < k ==> occurrences(av, bv[j]) == occurrences(bv, bv[j]),
        decreases b@.len() - k,
    {
        let ca = count_occurrences(a, &b[k]);
        let cb = count_occurrences(b, &b[k]);
        if ca != cb {
            proof {
                assert(occurrences(av, bv[k as int]) != occurrences(bv, bv[k as int]));
            }
            return false;
        }
        k = k + 1;
    }
    proof {
        assert forall|x: RowModel| occurrences(av, x) == occurrences(bv, x) by {
            lemma_occurrences_contains(av, x);
            lemma_occurrences_contains(bv, x);
            if av.contains(x) {
                let j = choose|j: int| 0 <= j < av.len() && av[j] == x;
                assert(occurrences(av, av[j]) == occurrences(bv, av[j]));
            } else if bv.contains(x) {
                let j = choose|j: int| 0 <= j < bv.len() && bv[j] == x;
                assert(occurrences(av, bv[j]) == occurrences(bv, bv[j]));
            }
        }
    }
    true
}

/// Element-for-element equality of two row vectors.
pub fn rows_equal(a: &Vec<Row>, b: &Vec<Row>) -> (r: bool)
    ensures
        r == (rows_view(a@) == rows_view(b@)),
{
    if a.len() != b.len() {
        proof {
            assert(rows_view(a@).len() != rows_view(b@).len());
        }
        return false;
    }
    let mut i: usize = 0;
    while i < a.len()
        invariant
            0 <= i <= a@.len(),
            a@.len() == b@.len(),
            forall|j: int| 0 <= j < i ==> rows_view(a@)[j] == rows_view(b@)[j],
        decreases a@.len() - i,
    {
        if !row_eq(&a[i], &b[i]) {
            proof {
                assert(rows_view(a@)[i as int] != rows_view(b@)[i as int]);
            }
            return false;
        }
        i = i + 1;
    }
    proof {
        assert(rows_view(a@) =~= rows_view(b@));
    }
    true
}

/// Classifies `actual` against `expected`: `None` when they match exactly,
/// otherwise which kind of mismatch was observed.
pub fn classify_rows(expected: &Vec<Row>, actual: &Vec<Row>) -> (r: Option<MismatchKind>)
    ensures
        r == classify(rows_view(expected@), rows_view(actual@)),
{
    if rows_equal(expected, actual) {
        None
    } else if expected.len() != actual.len() {
        Some(MismatchKind::Count)
    } else if contents_agree(expected, actual) {
        Some(MismatchKind::Order)
    } else {
        Some(MismatchKind::Content)
    }
}

} // verus!
