//! What the feed's page statement returns: a small model of the SQL it is
//! written in (a select of every post column from `posts`, an `ORDER BY` list,
//! and `LIMIT`/`OFFSET` read from bound parameters), and the law that the
//! statement for each order returns the requested window of all posts sorted
//! by that order.

use crate::posts::{posts_page_sql, Post, PostsListOrder};
use vstd::prelude::*;

verus! {

/// A column a page can be sorted by.
#[derive(PartialEq, Eq, Structural)]
pub enum SortColumn {
    Likes,
    Dislikes,
    CreatedAt,
}

/// One entry of an `ORDER BY` list.
#[derive(PartialEq, Eq, Structural)]
pub struct SortKey {
    pub column: SortColumn,
    pub descending: bool,
}

/// The parts of a page statement that decide its result.
pub struct PageStatement {
    pub keys: Seq<SortKey>,
    /// The number of the parameter `LIMIT` reads (`$n`).
    pub limit_param: int,
    /// The number of the parameter `OFFSET` reads.
    pub offset_param: int,
}

/// The value of a column in a post.
pub open spec fn column_value(post: Post, column: SortColumn) -> int {
    match column {
        SortColumn::Likes => post.likes_quantity as int,
        SortColumn::Dislikes => post.dislikes_quantity as int,
        SortColumn::CreatedAt => post.created_at as int,
    }
}

/// `a` comes strictly before `b` under the sort keys: the first key on which
/// they differ decides.
pub open spec fn sorts_before(a: Post, b: Post, keys: Seq<SortKey>) -> bool
    decreases keys.len(),
{
    if keys.len() == 0 {
        false
    } else {
        let va = column_value(a, keys[0].column);
        let vb = column_value(b, keys[0].column);
        if va != vb {
            if keys[0].descending {
                va > vb
            } else {
                va < vb
            }
        } else {
            sorts_before(a, b, keys.drop_first())
        }
    }
}

/// No row comes after a row it sorts before.
pub open spec fn sorted_by(rows: Seq<Post>, keys: Seq<SortKey>) -> bool {
    forall|i: int, j: int| 0 <= i < j < rows.len() ==> !sorts_before(#[trigger] rows[j], #[trigger] rows[i], keys)
}

/// `LIMIT limit OFFSET offset` applied to sorted rows; both must be non-negative.
pub open spec fn window(rows: Seq<Post>, limit: int, offset: int) -> Option<Seq<Post>> {
    if limit < 0 || offset < 0 {
        None
    } else {
        let start = if offset < rows.len() { offset } else { rows.len() as int };
        let end = if offset + limit < rows.len() { offset + limit } else { rows.len() as int };
        Some(rows.subrange(start, end))
    }
}

/// The index of the first comma of `s` at or after `i`, or -1.
pub open spec fn first_comma(s: Seq<char>, i: int) -> int
    decreases s.len() - i,
{
    if i >= s.len() || i < 0 {
        -1
    } else if s[i] == ',' {
        i
    } else {
        first_comma(s, i + 1)
    }
}

/// The column a column reference names.
pub open spec fn parse_column(text: Seq<char>) -> Option<SortColumn> {
    if text == "p.likes_quantity"@ {
        Some(SortColumn::Likes)
    } else if text == "p.dislikes_quantity"@ {
        Some(SortColumn::Dislikes)
    } else if text == "p.created_at"@ {
        Some(SortColumn::CreatedAt)
    } else {
        None
    }
}

/// One `ORDER BY` entry: a column reference, descending when followed by ` desc`.
pub open spec fn parse_sort_key(item: Seq<char>) -> Option<SortKey> {
    let suffix = " desc"@;
    if item.len() >= suffix.len() && item.subrange(item.len() - suffix.len(), item.len() as int) == suffix {
        match parse_column(item.subrange(0, item.len() - suffix.len())) {
            Some(column) => Some(SortKey { column, descending: true }),
            None => None,
        }
    } else {
        match parse_column(item) {
            Some(column) => Some(SortKey { column, descending: false }),
            None => None,
        }
    }
}

/// An `ORDER BY` list: entries separated by `, `.
pub open spec fn parse_sort_keys(s: Seq<char>) -> Option<Seq<SortKey>>
    decreases s.len(),
{
    let i = first_comma(s, 0);
    if i < 0 {
        match parse_sort_key(s) {
            Some(key) => Some(seq![key]),
            None => None,
        }
    } else if 0 <= i && i + 1 < s.len() && s[i + 1] == ' ' {
        match parse_sort_key(s.subrange(0, i)) {
            Some(key) => match parse_sort_keys(s.subrange(i + 2, s.len() as int)) {
                Some(keys) => Some(seq![key] + keys),
                None => None,
            },
            None => None,
        }
    } else {
        None
    }
}

/// A decimal digit as a number.
pub open spec fn digit_value(c: char) -> Option<int> {
    if '1' <= c && c <= '9' {
        Some(c as int - '0' as int)
    } else {
        None
    }
}

/// The statement reads every column of every post, unfiltered.
pub open spec fn select_all_posts() -> Seq<char> {
    "select p.id, p.created_at, p.text, p.image_url, p.likes_quantity, p.dislikes_quantity from posts as p order by "@
}

/// The length of ` limit $A::integer offset $B::integer`.
pub open spec fn window_clause_len() -> int {
    (" limit $"@.len() + 1 + "::integer offset $"@.len() + 1 + "::integer"@.len()) as int
}

/// Reads a page statement: the select of all posts, its `ORDER BY` list, and
/// the parameters its `LIMIT` and `OFFSET` read.
pub open spec fn parse_page_statement(sql: Seq<char>) -> Option<PageStatement> {
    let head = select_all_posts();
    let n = sql.len() as int;
    let t = window_clause_len();
    if n < head.len() + t || sql.subrange(0, head.len() as int) != head {
        None
    } else {
        let tail = sql.subrange(n - t, n);
        let a = " limit $"@;
        let b = "::integer offset $"@;
        let c = "::integer"@;
        let limit_at = a.len() as int;
        let offset_at = (a.len() + 1 + b.len()) as int;
        if tail.subrange(0, limit_at) == a && tail.subrange(limit_at + 1, offset_at) == b && tail.subrange(
            offset_at + 1,
            t,
        ) == c {
            match (
                parse_sort_keys(sql.subrange(head.len() as int, n - t)),
                digit_value(tail[limit_at]),
                digit_value(tail[offset_at]),
            ) {
                (Some(keys), Some(limit_param), Some(offset_param)) => Some(
                    PageStatement { keys, limit_param, offset_param },
                ),
                _ => None,
            }
        } else {
            None
        }
    }
}

/// `rows` is a result the database may give for statement `sql` with parameter
/// values `args` (`$1` is `args[0]`) over the posts `table`: the page of a
/// sorting of all posts (rows that tie may come in any order).
pub open spec fn page_result(sql: Seq<char>, args: Seq<int>, table: Seq<Post>, rows: Seq<Post>) -> bool {
    match parse_page_statement(sql) {
        Some(statement) => {
            &&& 1 <= statement.limit_param <= args.len()
            &&& 1 <= statement.offset_param <= args.len()
            &&& exists|sorted: Seq<Post>|
                #![trigger sorted_by(sorted, statement.keys)]
                sorted.to_multiset() == table.to_multiset() && sorted_by(sorted, statement.keys) && window(
                    sorted,
                    args[statement.limit_param - 1],
                    args[statement.offset_param - 1],
                ) == Some(rows)
        },
        None => false,
    }
}

/// What each order means: most liked first, most disliked first, or newest
/// first; posts that tie come newest first.
pub open spec fn order_keys(order: PostsListOrder) -> Seq<SortKey> {
    let newest_first = SortKey { column: SortColumn::CreatedAt, descending: true };
    match order {
        PostsListOrder::MoreLikesFirst => seq![SortKey { column: SortColumn::Likes, descending: true }, newest_first],
        PostsListOrder::ModeDislikesFirst => seq![
            SortKey { column: SortColumn::Dislikes, descending: true },
            newest_first,
        ],
        PostsListOrder::NewFirst => seq![newest_first],
    }
}

/// The page statement for each order reads all posts unfiltered, sorts them by
/// that order's meaning, and takes `LIMIT` from `$1` and `OFFSET` from `$2`.
pub proof fn lemma_statement_of_order(order: PostsListOrder)
    ensures
        parse_page_statement(posts_page_sql(order)) == Some(
            PageStatement { keys: order_keys(order), limit_param: 1, offset_param: 2 },
        ),
{
    reveal_strlit(" limit $");
    reveal_strlit("::integer offset $");
    reveal_strlit("::integer");
    reveal_strlit(" limit $1::integer offset $2::integer");
    reveal_strlit(" desc");
    reveal_strlit("p.likes_quantity");
    reveal_strlit("p.dislikes_quantity");
    reveal_strlit("p.created_at");
    reveal_strlit("p.likes_quantity desc, p.created_at desc");
    reveal_strlit("p.dislikes_quantity desc, p.created_at desc");
    reveal_strlit("p.created_at desc");
    reveal_with_fuel(first_comma, 30);
    let head = select_all_posts();
    let clause = crate::posts::order_by_clause(order);
    let tail = " limit $1::integer offset $2::integer"@;
    let sql = posts_page_sql(order);
    assert(sql == head + clause + tail);
    let n = sql.len() as int;
    let t = window_clause_len();
    assert(t == tail.len());
    assert(sql.subrange(0, head.len() as int) =~= head);
    assert(sql.subrange(n - t, n) =~= tail);
    assert(sql.subrange(head.len() as int, n - t) =~= clause);
    assert(tail.subrange(0, 8) =~= " limit $"@);
    assert(tail.subrange(9, 27) =~= "::integer offset $"@);
    assert(tail.subrange(28, 37) =~= "::integer"@);
    let created = SortKey { column: SortColumn::CreatedAt, descending: true };
    let last = "p.created_at desc"@;
    assert(parse_column(last.subrange(0, 12)) == Some(SortColumn::CreatedAt)) by {
        assert(last.subrange(0, 12) =~= "p.created_at"@);
    }
    assert(last.subrange(12, 17) =~= " desc"@);
    assert(parse_sort_key(last) == Some(created));
    assert(first_comma(last, 0) == -1);
    assert(parse_sort_keys(last) == Some(seq![created]));
    match order {
        PostsListOrder::MoreLikesFirst => {
            let s = "p.likes_quantity desc, p.created_at desc"@;
            assert(first_comma(s, 0) == 21);
            let item = s.subrange(0, 21);
            assert(item.subrange(0, 16) =~= "p.likes_quantity"@);
            assert(item.subrange(16, 21) =~= " desc"@);
            assert(s.subrange(23, s.len() as int) =~= last);
            assert(parse_sort_keys(s) == Some(seq![SortKey { column: SortColumn::Likes, descending: true }] + seq![created]));
            assert(seq![SortKey { column: SortColumn::Likes, descending: true }] + seq![created] =~= order_keys(order));
        },
        PostsListOrder::ModeDislikesFirst => {
            let s = "p.dislikes_quantity desc, p.created_at desc"@;
            assert(first_comma(s, 0) == 24);
            let item = s.subrange(0, 24);
            assert(item.subrange(0, 19) =~= "p.dislikes_quantity"@);
            assert(item.subrange(19, 24) =~= " desc"@);
            assert(s.subrange(26, s.len() as int) =~= last);
            assert(parse_sort_keys(s) == Some(seq![SortKey { column: SortColumn::Dislikes, descending: true }] + seq![created]));
            assert(seq![SortKey { column: SortColumn::Dislikes, descending: true }] + seq![created] =~= order_keys(order));
        },
        PostsListOrder::NewFirst => {
            assert(seq![created] =~= order_keys(order));
        },
    }
}

/// The page statement for an order, run with the limit bound to `$1` and the
/// offset to `$2` (as `get_posts` binds them), returns exactly the `limit`
/// posts after the first `offset` of all posts sorted by the order: it reads
/// every post (no post is filtered out), sorts by the order's meaning, and
/// takes the window the two bound values ask for.
pub proof fn lemma_page_statement_returns_window(
    order: PostsListOrder,
    limit: int,
    offset: int,
    table: Seq<Post>,
    rows: Seq<Post>,
)
    ensures
        page_result(posts_page_sql(order), seq![limit, offset], table, rows) <==> exists|sorted: Seq<Post>|
            #![trigger sorted_by(sorted, order_keys(order))]
            sorted.to_multiset() == table.to_multiset() && sorted_by(sorted, order_keys(order)) && window(
                sorted,
                limit,
                offset,
            ) == Some(rows),
{
    lemma_statement_of_order(order);
    let args = seq![limit, offset];
    assert(args.len() == 2 && args[0] == limit && args[1] == offset);
    let statement = PageStatement { keys: order_keys(order), limit_param: 1, offset_param: 2 };
    assert(statement.keys == order_keys(order));
}

/// A first page of a positive length over a feed with posts is never empty,
/// and each page holds at most its length of posts.
pub proof fn lemma_first_page_not_empty(
    order: PostsListOrder,
    limit: int,
    table: Seq<Post>,
    rows: Seq<Post>,
)
    requires
        page_result(posts_page_sql(order), seq![limit, 0], table, rows),
    ensures
        limit > 0 && table.len() > 0 ==> rows.len() > 0,
        rows.len() <= limit,
        rows.len() <= table.len(),
{
    lemma_page_statement_returns_window(order, limit, 0, table, rows);
    let sorted = choose|sorted: Seq<Post>|
        #![trigger sorted_by(sorted, order_keys(order))]
        sorted.to_multiset() == table.to_multiset() && sorted_by(sorted, order_keys(order)) && window(
            sorted,
            limit,
            0,
        ) == Some(rows);
    assert(sorted.len() == table.len()) by {
        sorted.to_multiset_ensures();
        table.to_multiset_ensures();
    }
}

} // verus!
