//! A printable reference of tileset indices: the sixteen by sixteen grid of
//! indices and the formula behind them.
use vstd::prelude::*;
use super::tilemap_config::spec_tile_index;
use crate::text::{digit, owned, spec_decimal, spec_digit, string_from_chars};

verus! {

/// One grid cell: the index right-aligned in three columns, then a space.
pub open spec fn spec_index_cell(n: nat) -> Seq<char> {
    let d = spec_decimal(n);
    Seq::new((3 - d.len()) as nat, |i: int| ' ') + d + seq![' ']
}

/// The first `k` cells of grid row `row`.
pub open spec fn spec_row_cells(row: nat, k: nat) -> Seq<char>
    decreases k,
{
    if k == 0 { Seq::empty() } else { spec_row_cells(row, (k - 1) as nat) + spec_index_cell(row * 16 + (k - 1) as nat) }
}

/// A line of eighty `=` signs.
pub open spec fn spec_rule() -> Seq<char> {
    Seq::new(80, |i: int| '=')
}

/// The reference, line by line: a title, a rule, the sixteen rows of
/// indices (`row * 16 + column`), a blank line, a rule, the formula and a
/// worked example.
pub open spec fn spec_tile_grid_lines() -> Seq<Seq<char>> {
    seq!["Pyxel Edit Tile Index Reference (16x16 grid):"@, spec_rule()]
        + Seq::new(16, |r: int| spec_row_cells(r as nat, 16))
        + seq![Seq::<char>::empty(), spec_rule(), "Formula: index = row * 16 + column"@,
            "Example: Tile at row 2, column 5 = 2*16 + 5 = 37"@]
}

/// Appends the cell of index `n` to `line`.
fn push_index_cell(line: &mut Vec<char>, n: usize)
    requires
        n < 1000,
    ensures
        final(line)@ == old(line)@ + spec_index_cell(n as nat),
{
    let ghost start = line@;
    proof {
        reveal_with_fuel(spec_decimal, 3);
    }
    if n < 10 {
        line.push(' ');
        line.push(' ');
        line.push(digit(n));
        assert(spec_decimal(n as nat) == seq![spec_digit(n as nat)]);
    } else if n < 100 {
        line.push(' ');
        line.push(digit(n / 10));
        line.push(digit(n % 10));
        assert(spec_decimal(n as nat) == seq![spec_digit((n / 10) as nat), spec_digit((n % 10) as nat)]);
    } else {
        line.push(digit(n / 100));
        line.push(digit((n / 10) % 10));
        line.push(digit(n % 10));
        assert(spec_decimal((n / 10) as nat) == seq![spec_digit((n / 100) as nat), spec_digit(((n / 10) % 10) as nat)]);
        assert(spec_decimal(n as nat) == seq![spec_digit((n / 100) as nat), spec_digit(((n / 10) % 10) as nat),
            spec_digit((n % 10) as nat)]);
    }
    line.push(' ');
    assert(line@ =~= start + spec_index_cell(n as nat));
}

/// A line of eighty `=` signs.
fn rule() -> (s: String)
    ensures
        s@ == spec_rule(),
{
    let mut v: Vec<char> = Vec::new();
    let mut i: usize = 0;
    while i < 80
        invariant
            i <= 80,
            v@ == Seq::new(i as nat, |k: int| '='),
        decreases 80 - i,
    {
        v.push('=');
        i = i + 1;
        assert(v@ =~= Seq::new(i as nat, |k: int| '='));
    }
    string_from_chars(&v)
}

/// The lines of the tileset index reference.
pub fn debug_tile_indices() -> (lines: Vec<String>)
    ensures
        lines@.map_values(|l: String| l@) == spec_tile_grid_lines(),
{
    let mut lines: Vec<String> = Vec::new();
    lines.push(owned("Pyxel Edit Tile Index Reference (16x16 grid):"));
    lines.push(rule());
    let mut row: usize = 0;
    while row < 16
        invariant
            row <= 16,
            lines@.len() == 2 + row,
            lines@[0]@ == "Pyxel Edit Tile Index Reference (16x16 grid):"@,
            lines@[1]@ == spec_rule(),
            forall|r: int| 0 <= r < row ==> #[trigger] lines@[2 + r]@ == spec_row_cells(r as nat, 16),
        decreases 16 - row,
    {
        let mut line: Vec<char> = Vec::new();
        let mut col: usize = 0;
        while col < 16
            invariant
                row < 16,
                col <= 16,
                line@ == spec_row_cells(row as nat, col as nat),
            decreases 16 - col,
        {
            push_index_cell(&mut line, row * 16 + col);
            col = col + 1;
        }
        lines.push(string_from_chars(&line));
        row = row + 1;
    }
    let ghost mid = lines@;
    lines.push(owned(""));
    lines.push(rule());
    lines.push(owned("Formula: index = row * 16 + column"));
    lines.push(owned("Example: Tile at row 2, column 5 = 2*16 + 5 = 37"));
    proof {
        reveal_strlit("");
        let want = spec_tile_grid_lines();
        let got = lines@.map_values(|l: String| l@);
        assert(got.len() == want.len());
        assert forall|i: int| 0 <= i < want.len() implies got[i] == want[i] by {
            if 2 <= i < 18 {
                assert(lines@[i] == mid[i]);
                assert(mid[2 + (i - 2)]@ == spec_row_cells((i - 2) as nat, 16));
            }
        }
        assert(got =~= want);
    }
    lines
}

/// Indices below 1000 take three digits or fewer, so their cell is four
/// characters wide.
proof fn lemma_index_cell_len(n: nat)
    requires
        n < 1000,
    ensures
        spec_decimal(n).len() <= 3,
        spec_index_cell(n).len() == 4,
{
    reveal_with_fuel(spec_decimal, 3);
}

/// The first `k` cells of a row are `4k` characters, and characters
/// `4c..4c+4` of them are the cell of index `16 row + c`.
proof fn lemma_row_fields(row: nat, k: nat)
    requires
        row < 16,
        k <= 16,
    ensures
        spec_row_cells(row, k).len() == 4 * k,
        forall|c: int| 0 <= c < k ==> #[trigger] spec_row_cells(row, k).subrange(4 * c, 4 * c + 4)
            == spec_index_cell((row * 16 + c) as nat),
    decreases k,
{
    if k > 0 {
        lemma_row_fields(row, (k - 1) as nat);
        lemma_index_cell_len(row * 16 + (k - 1) as nat);
        let prev = spec_row_cells(row, (k - 1) as nat);
        let cell = spec_index_cell(row * 16 + (k - 1) as nat);
        assert forall|c: int| 0 <= c < k implies #[trigger] spec_row_cells(row, k).subrange(4 * c, 4 * c + 4)
            == spec_index_cell((row * 16 + c) as nat) by {
            if c < k - 1 {
                assert(spec_row_cells(row, k).subrange(4 * c, 4 * c + 4) =~= prev.subrange(4 * c, 4 * c + 4));
            } else {
                assert(spec_row_cells(row, k).subrange(4 * c, 4 * c + 4) =~= cell);
            }
        }
    }
}

/// The index grid reads field by field: grid line `r` is sixteen fields of
/// four characters, and field `c` is `row * 16 + column`, right-aligned in
/// three columns and followed by a space; so the grid lists 0 to 255 in
/// order. The worked example agrees: row 2, column 5 is index 37.
pub proof fn lemma_grid_fields()
    ensures
        forall|r: int| 0 <= r < 16 ==> (#[trigger] spec_tile_grid_lines()[2 + r]).len() == 64,
        forall|r: int, c: int| 0 <= r < 16 && 0 <= c < 16 ==> (#[trigger] spec_tile_grid_lines()[2 + r].subrange(
            4 * c,
            4 * c + 4,
        )) == spec_index_cell(spec_tile_index(r, c) as nat),
        spec_tile_index(2, 5) == 37,
{
    let lines = spec_tile_grid_lines();
    assert forall|r: int| 0 <= r < 16 implies #[trigger] lines[2 + r] == spec_row_cells(r as nat, 16) by {}
    assert forall|r: int| 0 <= r < 16 implies (#[trigger] spec_tile_grid_lines()[2 + r]).len() == 64 by {
        lemma_row_fields(r as nat, 16);
    }
    assert forall|r: int, c: int| 0 <= r < 16 && 0 <= c < 16 implies (#[trigger] spec_tile_grid_lines()[2 + r].subrange(
        4 * c,
        4 * c + 4,
    )) == spec_index_cell(spec_tile_index(r, c) as nat) by {
        lemma_row_fields(r as nat, 16);
        assert(spec_row_cells(r as nat, 16).subrange(4 * c, 4 * c + 4) == spec_index_cell((r as nat * 16 + c) as nat));
    }
}

} // verus!
