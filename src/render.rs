use vstd::prelude::*;

use crate::todo::{items_of, TodoItem, TodoRecord};

verus! {

/// The character of a decimal digit `d < 10`.
pub open spec fn digit_char(d: nat) -> char {
    if d == 0 {
        '0'
    } else if d == 1 {
        '1'
    } else if d == 2 {
        '2'
    } else if d == 3 {
        '3'
    } else if d == 4 {
        '4'
    } else if d == 5 {
        '5'
    } else if d == 6 {
        '6'
    } else if d == 7 {
        '7'
    } else if d == 8 {
        '8'
    } else {
        '9'
    }
}

/// Decimal digits of a natural number, most significant first, no leading zeros.
pub open spec fn digits_of(n: nat) -> Seq<char>
    decreases n,
{
    if n < 10 {
        seq![digit_char(n)]
    } else {
        digits_of(n / 10).push(digit_char(n % 10))
    }
}

/// Decimal text of an integer: a leading '-' for negative values.
pub open spec fn decimal_of(n: int) -> Seq<char> {
    if n < 0 {
        seq!['-'] + digits_of((-n) as nat)
    } else {
        digits_of(n as nat)
    }
}

fn digit_str(d: u64) -> (r: &'static str)
    requires
        d < 10,
    ensures
        r@ == seq![digit_char(d as nat)],
{
    proof {
        reveal_strlit("0");
        reveal_strlit("1");
        reveal_strlit("2");
        reveal_strlit("3");
        reveal_strlit("4");
        reveal_strlit("5");
        reveal_strlit("6");
        reveal_strlit("7");
        reveal_strlit("8");
        reveal_strlit("9");
    }
    match d {
        0 => "0",
        1 => "1",
        2 => "2",
        3 => "3",
        4 => "4",
        5 => "5",
        6 => "6",
        7 => "7",
        8 => "8",
        _ => "9",
    }
}

fn push_digits(out: &mut String, n: u64)
    ensures
        final(out)@ == old(out)@ + digits_of(n as nat),
    decreases n,
{
    if n >= 10 {
        push_digits(out, n / 10);
    }
    out.append(digit_str(n % 10));
    assert(out@ =~= old(out)@ + digits_of(n as nat));
}

/// Appends the decimal text of `n` to `out`.
pub fn push_decimal(out: &mut String, n: i64)
    ensures
        final(out)@ == old(out)@ + decimal_of(n as int),
{
    if n < 0 {
        proof {
            reveal_strlit("-");
        }
        out.append("-");
        let magnitude: u64 = (0i128 - n as i128) as u64;
        push_digits(out, magnitude);
        assert(out@ =~= old(out)@ + decimal_of(n as int));
    } else {
        push_digits(out, n as u64);
    }
}

/// The line that opens every listing.
pub const LISTING_HEADER: &'static str = "- [ ] List of todos:";

/// The completion mark of a row: `x` when done, else a space.
pub open spec fn mark_of(done: bool) -> Seq<char> {
    if done {
        "x"@
    } else {
        " "@
    }
}

/// The line of one row: `- [<mark>] <id>: <description>`.
pub open spec fn line_of(t: TodoItem) -> Seq<char> {
    "- ["@ + mark_of(t.done) + "] "@ + decimal_of(t.id) + ": "@ + t.description
}

/// A whole listing: the header line, then one line per row in the given order.
pub open spec fn listing_of(items: Seq<TodoItem>) -> Seq<Seq<char>> {
    seq![LISTING_HEADER@] + items.map_values(|t: TodoItem| line_of(t))
}

/// The text of each line of a sequence of strings.
pub open spec fn lines_of(lines: Seq<String>) -> Seq<Seq<char>> {
    lines.map_values(|l: String| l@)
}

/// Renders one row as a line of the listing.
pub fn render_line(rec: &TodoRecord) -> (r: String)
    ensures
        r@ == line_of(rec@),
{
    let mut out = String::from_str("- [");
    if rec.done {
        out.append("x");
    } else {
        out.append(" ");
    }
    out.append("] ");
    push_decimal(&mut out, rec.id);
    out.append(": ");
    out.append(rec.description.as_str());
    assert(out@ =~= line_of(rec@));
    out
}

/// Renders the header and then every row, in the order of `rows`.
pub fn render_listing(rows: &Vec<TodoRecord>) -> (r: Vec<String>)
    ensures
        lines_of(r@) == listing_of(items_of(rows@)),
{
    let mut out: Vec<String> = Vec::new();
    out.push(String::from_str(LISTING_HEADER));
    let mut i: usize = 0;
    while i < rows.len()
        invariant
            i <= rows@.len(),
            lines_of(out@) =~= listing_of(items_of(rows@.subrange(0, i as int))),
        decreases rows@.len() - i,
    {
        let line = render_line(&rows[i]);
        let ghost before = out@;
        out.push(line);
        let ghost done = rows@.subrange(0, i as int);
        assert(rows@.subrange(0, i + 1) =~= done.push(rows@[i as int]));
        assert(lines_of(out@) =~= lines_of(before).push(line_of(rows@[i as int]@)));
        assert(items_of(done.push(rows@[i as int])) =~= items_of(done).push(rows@[i as int]@));
        assert(listing_of(items_of(done).push(rows@[i as int]@)) =~= listing_of(items_of(done)).push(
            line_of(rows@[i as int]@),
        ));
        i = i + 1;
    }
    assert(rows@.subrange(0, rows@.len() as int) =~= rows@);
    out
}

/// The row of a table, keyed by id, that has the given id.
pub open spec fn table_item(table: Map<int, (Seq<char>, bool)>, id: int) -> TodoItem {
    TodoItem { id, description: table[id].0, done: table[id].1 }
}

/// What the listing query answers for a table keyed by id: every row of the
/// table once, each as stored, by strictly ascending id.
pub open spec fn answers_table(items: Seq<TodoItem>, table: Map<int, (Seq<char>, bool)>) -> bool {
    &&& forall|i: int, j: int| 0 <= i < j < items.len() ==> items[i].id < items[j].id
    &&& forall|i: int|
        0 <= i < items.len() ==> table.contains_key(#[trigger] items[i].id) && items[i]
            == table_item(table, items[i].id)
    &&& forall|id: int|
        table.contains_key(id) ==> exists|i: int| 0 <= i < items.len() && #[trigger] items[i].id == id
}

/// When the rows answer a table, the listing is the header, then exactly one
/// line per row of the table: no row is left out, none is added or repeated,
/// and the lines follow strictly ascending id.
pub proof fn lemma_listing_follows_table(
    items: Seq<TodoItem>,
    table: Map<int, (Seq<char>, bool)>,
)
    requires
        answers_table(items, table),
    ensures
        listing_of(items).len() == items.len() + 1,
        listing_of(items)[0] == LISTING_HEADER@,
        forall|id: int|
            table.contains_key(id) ==> exists|i: int|
                0 <= i < items.len() && items[i].id == id && #[trigger] listing_of(items)[i + 1]
                    == line_of(table_item(table, id)),
        forall|i: int|
            0 <= i < items.len() ==> table.contains_key(items[i].id) && #[trigger] listing_of(
                items,
            )[i + 1] == line_of(table_item(table, items[i].id)),
        forall|i: int, j: int| 0 <= i < j < items.len() ==> items[i].id < items[j].id,
        forall|i: int, j: int| 0 <= i < j < items.len() ==> items[i].id != items[j].id,
{
    assert forall|id: int| table.contains_key(id) implies exists|i: int|
        0 <= i < items.len() && items[i].id == id && #[trigger] listing_of(items)[i + 1]
            == line_of(table_item(table, id)) by {
        let i = choose|i: int| 0 <= i < items.len() && #[trigger] items[i].id == id;
        assert(listing_of(items)[i + 1] == line_of(items[i]));
    }
}

} // verus!
