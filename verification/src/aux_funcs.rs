use crate::decimal::append_decimal;
use crate::decimal::decimal;
use crate::lines::chars_of;
use crate::lines::find_line_end;
use crate::lines::lemma_line_end;
use crate::lines::line_at;
use vstd::prelude::*;
use vstd::string::*;

verus! {

/// The first `n` cells of a row of a table of `height` rows: each cell is
/// followed by a comma while its number in the row, counted from one, is
/// below the number of rows of the table.
pub open spec fn csv_cells(cells: Seq<Seq<char>>, height: nat, n: nat) -> Seq<char>
    decreases n,
{
    if n == 0 {
        Seq::<char>::empty()
    } else {
        csv_cells(cells, height, (n - 1) as nat) + cells[n - 1] + if n < height {
            seq![',']
        } else {
            Seq::<char>::empty()
        }
    }
}

/// The first `m` rows of a table, each closed by a line feed.
pub open spec fn csv_rows(table: Seq<Seq<Seq<char>>>, m: nat) -> Seq<char>
    decreases m,
{
    if m == 0 {
        Seq::<char>::empty()
    } else {
        csv_rows(table, (m - 1) as nat) + csv_cells(
            table[m - 1],
            table.len(),
            table[m - 1].len(),
        ) + seq!['\n']
    }
}

/// The text of a table as comma-separated values.
pub open spec fn csv_text(table: Seq<Seq<Seq<char>>>) -> Seq<char> {
    csv_rows(table, table.len())
}

/// The cells of a table of numbers, each as its decimal numeral.
pub open spec fn numerals(table: Seq<Vec<usize>>) -> Seq<Seq<Seq<char>>> {
    Seq::new(
        table.len(),
        |r: int| Seq::new(table[r]@.len(), |c: int| decimal(table[r]@[c] as nat)),
    )
}

/// The cells of a table of strings, each as its text.
pub open spec fn cell_texts(table: Seq<Vec<String>>) -> Seq<Seq<Seq<char>>> {
    Seq::new(table.len(), |r: int| Seq::new(table[r]@.len(), |c: int| table[r]@[c]@))
}

/// Appends a comma to `out` where cell number `counter` of a row is to be
/// followed by one.
fn close_cell(out: &mut String, counter: usize, height: usize)
    ensures
        final(out)@ == old(out)@ + if counter < height {
            seq![',']
        } else {
            Seq::<char>::empty()
        },
{
    if counter < height {
        proof {
            reveal_strlit(",");
        }
        out.append(",");
        assert(out@ =~= old(out)@ + seq![',']);
    } else {
        assert(out@ =~= old(out)@ + Seq::<char>::empty());
    }
}

/// Appends a line feed to `out`.
fn close_row(out: &mut String)
    ensures
        final(out)@ == old(out)@ + seq!['\n'],
{
    proof {
        reveal_strlit("\n");
    }
    out.append("\n");
    assert(out@ =~= old(out)@ + seq!['\n']);
}

/// A table of numbers as comma-separated values: the numbers in decimal,
/// one row to a line.
pub fn translateIntVecToCSV(aVEC: &Vec<Vec<usize>>) -> (text: String)
    ensures
        text@ == csv_text(numerals(aVEC@)),
{
    let ghost table = numerals(aVEC@);
    let mut accumulator: String = String::new();
    let mLength: usize = aVEC.len();
    let mut r: usize = 0;
    while r < mLength
        invariant
            r <= mLength,
            mLength == aVEC@.len(),
            table == numerals(aVEC@),
            accumulator@ == csv_rows(table, r as nat),
        decreases mLength - r,
    {
        let ROW = &aVEC[r];
        let ghost before = accumulator@;
        let mut counter: usize = 0;
        assert(accumulator@ =~= before + csv_cells(table[r as int], table.len(), 0));
        while counter < ROW.len()
            invariant
                counter <= ROW@.len(),
                r < mLength,
                mLength == aVEC@.len(),
                table == numerals(aVEC@),
                *ROW == aVEC@[r as int],
                accumulator@ == before + csv_cells(table[r as int], table.len(), counter as nat),
            decreases ROW@.len() - counter,
        {
            let VAL = ROW[counter];
            counter += 1;
            append_decimal(&mut accumulator, VAL as u64);
            close_cell(&mut accumulator, counter, mLength);
            assert(accumulator@ =~= before + csv_cells(
                table[r as int],
                table.len(),
                counter as nat,
            ));
        }
        close_row(&mut accumulator);
        assert(accumulator@ =~= csv_rows(table, (r + 1) as nat));
        r += 1;
    }
    accumulator
}

/// A table of strings as comma-separated values, one row to a line.
pub fn translateStringVecToCSV(aVEC: &Vec<Vec<String>>) -> (text: String)
    ensures
        text@ == csv_text(cell_texts(aVEC@)),
{
    let ghost table = cell_texts(aVEC@);
    let mut accumulator: String = String::new();
    let mLength: usize = aVEC.len();
    let mut r: usize = 0;
    while r < mLength
        invariant
            r <= mLength,
            mLength == aVEC@.len(),
            table == cell_texts(aVEC@),
            accumulator@ == csv_rows(table, r as nat),
        decreases mLength - r,
    {
        let ROW = &aVEC[r];
        let ghost before = accumulator@;
        let mut counter: usize = 0;
        assert(accumulator@ =~= before + csv_cells(table[r as int], table.len(), 0));
        while counter < ROW.len()
            invariant
                counter <= ROW@.len(),
                r < mLength,
                mLength == aVEC@.len(),
                table == cell_texts(aVEC@),
                *ROW == aVEC@[r as int],
                accumulator@ == before + csv_cells(table[r as int], table.len(), counter as nat),
            decreases ROW@.len() - counter,
        {
            let VAL = &ROW[counter];
            counter += 1;
            accumulator.append(VAL.as_str());
            close_cell(&mut accumulator, counter, mLength);
            assert(accumulator@ =~= before + csv_cells(
                table[r as int],
                table.len(),
                counter as nat,
            ));
        }
        close_row(&mut accumulator);
        assert(accumulator@ =~= csv_rows(table, (r + 1) as nat));
        r += 1;
    }
    accumulator
}

/// The last character of the first line of `text`: none where the text is
/// empty or its first line is.
pub fn last_char_of_first_line(text: &str) -> (r: Option<char>)
    ensures
        r == if text@.len() == 0 || line_at(text@, 0).len() == 0 {
            None
        } else {
            Some(line_at(text@, 0).last())
        },
{
    let chars = chars_of(text);
    if chars.len() == 0 {
        return None;
    }
    let end = find_line_end(&chars, 0);
    proof {
        lemma_line_end(text@, 0);
    }
    let stop = if 0 < end && end < chars.len() && chars[end - 1] == '\r' {
        end - 1
    } else {
        end
    };
    if stop == 0 {
        None
    } else {
        Some(chars[stop - 1])
    }
}

} // verus!
