//! Pages of a GraphQL connection: edges with cursors, and whether there is
//! more on either side of the page.
use vstd::prelude::*;

verus! {

/// One element of a page, with the cursor that locates it.
pub struct Edge<C, N> {
    pub cursor: C,
    pub node: N,
}

/// A page of a list, as a GraphQL connection hands it out.
pub struct Connection<C, N> {
    pub edges: Vec<Edge<C, N>>,
    pub has_previous_page: bool,
    pub has_next_page: bool,
}

/// A cursor over an `i64` key for lists that run in descending key order.
#[derive(Clone, Copy, Debug, PartialEq, Eq, Structural)]
pub struct DescendingI64 {
    pub value: i64,
}

/// The lowest and the highest key on a page.
#[derive(Clone, Copy, Debug, PartialEq, Eq, Structural)]
pub struct PageBounds {
    pub min: i64,
    pub max: i64,
}

/// `b` holds the least and the greatest of the keys of `rows`.
pub open spec fn bounds_of<T>(rows: Seq<(i64, T)>, b: PageBounds) -> bool {
    &&& forall|i: int| 0 <= i < rows.len() ==> b.min <= #[trigger] rows[i].0 <= b.max
    &&& exists|i: int| 0 <= i < rows.len() && #[trigger] rows[i].0 == b.min
    &&& exists|j: int| 0 <= j < rows.len() && #[trigger] rows[j].0 == b.max
}

/// Whether the table holds keys beyond the page, on a page sorted by key:
/// a previous page exists when the table's least key is below the page's, a
/// next page when the table's greatest key is above the page's.
pub open spec fn ascending_flags(b: PageBounds, db_min: Option<i64>, db_max: Option<i64>) -> (bool, bool) {
    (
        match db_min {
            Some(m) => m < b.min,
            None => false,
        },
        match db_max {
            Some(m) => m > b.max,
            None => false,
        },
    )
}

/// Whether the table holds keys beyond a page that runs in descending order
/// from `first` to `last`: a previous page exists when the table's greatest
/// key is above `first`, a next page when its least key is below `last`.
pub open spec fn descending_flags(first: i64, last: i64, db_min: Option<i64>, db_max: Option<i64>) -> (bool, bool) {
    (
        match db_max {
            Some(m) => m > first,
            None => false,
        },
        match db_min {
            Some(m) => m < last,
            None => false,
        },
    )
}

impl<C, N> Connection<C, N> {
    /// An empty page, with no page on either side.
    pub fn new() -> (c: Self)
        ensures
            c.edges@.len() == 0,
            !c.has_previous_page,
            !c.has_next_page,
    {
        Connection { edges: Vec::new(), has_previous_page: false, has_next_page: false }
    }
}

/// Sets the flags of a page whose keys lie between `bounds.min` and
/// `bounds.max`, from the least and greatest keys of the whole table.
pub fn set_ascending_flags<C, N>(
    page: &mut Connection<C, N>,
    bounds: PageBounds,
    db_min: Option<i64>,
    db_max: Option<i64>,
)
    ensures
        final(page).edges@ == old(page).edges@,
        (final(page).has_previous_page, final(page).has_next_page) == ascending_flags(bounds, db_min, db_max),
        final(page).has_previous_page <==> (db_min matches Some(least) && least < bounds.min),
        final(page).has_next_page <==> (db_max matches Some(greatest) && greatest > bounds.max),
{
    page.has_previous_page = match db_min {
        Some(m) => m < bounds.min,
        None => false,
    };
    page.has_next_page = match db_max {
        Some(m) => m > bounds.max,
        None => false,
    };
}

/// The edges of a page that runs in descending key order, in the order of
/// `rows`, each with its key as cursor.
pub fn descending_edges<N>(rows: Vec<(i64, N)>) -> (page: Connection<DescendingI64, N>)
    ensures
        page.edges@.len() == rows@.len(),
        forall|i: int| 0 <= i < rows@.len() ==> {
            &&& (#[trigger] page.edges@[i]).cursor == DescendingI64 { value: rows@[i].0 }
            &&& page.edges@[i].node == rows@[i].1
        },
        !page.has_previous_page,
        !page.has_next_page,
{
    let mut page: Connection<DescendingI64, N> = Connection::new();
    let ghost all = rows@;
    for row in it: rows.into_iter()
        invariant
            all == it.seq(),
            page.edges@.len() == it.index(),
            forall|i: int| 0 <= i < it.index() ==> {
                &&& (#[trigger] page.edges@[i]).cursor == DescendingI64 { value: all[i].0 }
                &&& page.edges@[i].node == all[i].1
            },
            !page.has_previous_page,
            !page.has_next_page,
    {
        let (key, node) = row;
        page.edges.push(Edge { cursor: DescendingI64 { value: key }, node });
    }
    page
}

/// Sets the flags of a page that runs in descending key order, from the
/// least and greatest keys of the whole table; an empty page is left as it is.
pub fn set_descending_flags<N>(
    page: &mut Connection<DescendingI64, N>,
    db_min: Option<i64>,
    db_max: Option<i64>,
)
    ensures
        final(page).edges@ == old(page).edges@,
        old(page).edges@.len() == 0 ==> {
            &&& final(page).has_previous_page == old(page).has_previous_page
            &&& final(page).has_next_page == old(page).has_next_page
        },
        old(page).edges@.len() > 0 ==> (final(page).has_previous_page, final(page).has_next_page)
            == descending_flags(
            old(page).edges@[0].cursor.value,
            old(page).edges@.last().cursor.value,
            db_min,
            db_max,
        ),
        old(page).edges@.len() > 0 ==> (final(page).has_previous_page <==> (db_max matches Some(greatest)
            && greatest > old(page).edges@[0].cursor.value)),
        old(page).edges@.len() > 0 ==> (final(page).has_next_page <==> (db_min matches Some(least) && least
            < old(page).edges@.last().cursor.value)),
{
    let n = page.edges.len();
    if n > 0 {
        let first = page.edges[0].cursor.value;
        let last = page.edges[n - 1].cursor.value;
        page.has_previous_page = match db_max {
            Some(m) => m > first,
            None => false,
        };
        page.has_next_page = match db_min {
            Some(m) => m < last,
            None => false,
        };
    }
}

/// On a page sorted by key, each flag looks at one side only: there is a
/// previous page exactly when the table holds a key below the page's least,
/// and a next page exactly when it holds a key above the page's greatest; the
/// table's greatest key never changes the previous-page flag, nor its least
/// key the next-page flag.
pub proof fn lemma_ascending_flags_one_side_each(
    b: PageBounds,
    db_min: Option<i64>,
    db_max: Option<i64>,
    other_min: Option<i64>,
    other_max: Option<i64>,
)
    ensures
        ascending_flags(b, db_min, db_max).0 <==> (db_min matches Some(least) && least < b.min),
        ascending_flags(b, db_min, db_max).1 <==> (db_max matches Some(greatest) && greatest > b.max),
        ascending_flags(b, db_min, db_max).0 == ascending_flags(b, db_min, other_max).0,
        ascending_flags(b, db_min, db_max).1 == ascending_flags(b, other_min, db_max).1,
{
}

/// On a page in descending key order from `first` to `last`, there is a
/// previous page exactly when the table holds a key above `first`, and a
/// next page exactly when it holds a key below `last`; each flag ignores the
/// other side of the table.
pub proof fn lemma_descending_flags_one_side_each(
    first: i64,
    last: i64,
    db_min: Option<i64>,
    db_max: Option<i64>,
    other_min: Option<i64>,
    other_max: Option<i64>,
)
    ensures
        descending_flags(first, last, db_min, db_max).0 <==> (db_max matches Some(greatest) && greatest > first),
        descending_flags(first, last, db_min, db_max).1 <==> (db_min matches Some(least) && least < last),
        descending_flags(first, last, db_min, db_max).0 == descending_flags(first, last, other_min, db_max).0,
        descending_flags(first, last, db_min, db_max).1 == descending_flags(first, last, db_min, other_max).1,
{
}

/// Bounds of a page are its least and its greatest key: no key of the page
/// lies outside them, and both occur on the page.
pub proof fn lemma_bounds_are_least_and_greatest<T>(rows: Seq<(i64, T)>, b: PageBounds, k: int)
    requires
        bounds_of(rows, b),
        0 <= k < rows.len(),
    ensures
        b.min <= rows[k].0,
        rows[k].0 <= b.max,
        rows.len() > 0,
        exists|i: int| 0 <= i < rows.len() && rows[i].0 == b.min,
        exists|j: int| 0 <= j < rows.len() && rows[j].0 == b.max,
{
}

} // verus!
