//! A matrix as text: four lines of four right-aligned cells, for
//! diagnostics.

use crate::math::matrix4::Matrix4;
use crate::math::scalar::Scalar;
use vstd::prelude::*;
use vstd::string::StrSliceExecFns;
use vstd::string::StringExecFns;

verus! {

/// The width to which a cell is padded.
pub const CELL_WIDTH: usize = 12;

/// `n` spaces.
pub open spec fn spaces(n: nat) -> Seq<char> {
    Seq::new(n, |i: int| ' ')
}

/// `cell` right-aligned in `CELL_WIDTH` characters: spaces are put before
/// a shorter one, a longer one is kept whole.
pub open spec fn pad_model(cell: Seq<char>) -> Seq<char> {
    if cell.len() >= CELL_WIDTH {
        cell
    } else {
        spaces((CELL_WIDTH - cell.len()) as nat) + cell
    }
}

/// One line of the grid: the opening bracket, the four padded cells, each
/// with a space before it, a space and the closing bracket.
pub open spec fn line_model(
    open: char,
    c0: Seq<char>,
    c1: Seq<char>,
    c2: Seq<char>,
    c3: Seq<char>,
    close: char,
) -> Seq<char> {
    seq![open] + seq![' '] + pad_model(c0) + seq![' '] + pad_model(c1) + seq![' '] + pad_model(c2)
        + seq![' '] + pad_model(c3) + seq![' '] + seq![close]
}

/// The grid of sixteen cells: four lines, bracketed `/ \`, `| |`, `| |`,
/// `\ /`, separated by line feeds.
pub open spec fn grid_model(c: Seq<Seq<char>>) -> Seq<char> {
    line_model('/', c[0], c[1], c[2], c[3], '\\') + seq!['\n'] + line_model(
        '|',
        c[4],
        c[5],
        c[6],
        c[7],
        '|',
    ) + seq!['\n'] + line_model('|', c[8], c[9], c[10], c[11], '|') + seq!['\n'] + line_model(
        '\\',
        c[12],
        c[13],
        c[14],
        c[15],
        '/',
    )
}

/// `s` is the grid of the entries `m`, each written by `cell`.
pub open spec fn rendered<T, F: Fn(T) -> String>(m: Seq<T>, cell: F, s: Seq<char>) -> bool {
    exists|c: Seq<String>|
        {
            &&& c.len() == 16
            &&& forall|i: int| 0 <= i < 16 ==> call_ensures(cell, (m[i],), #[trigger] c[i])
            &&& s == grid_model(Seq::new(16, |i: int| c[i]@))
        }
}

/// Appends a space and `cell`, right-aligned in `CELL_WIDTH` characters.
fn push_cell(out: &mut String, cell: &str)
    ensures
        final(out)@ == old(out)@ + seq![' '] + pad_model(cell@),
{
    proof {
        reveal_strlit(" ");
    }
    out.append(" ");
    let n = cell.unicode_len();
    let mut k: usize = n;
    while k < CELL_WIDTH
        invariant
            n == cell@.len(),
            n <= k,
            k <= CELL_WIDTH || k == n,
            out@ == old(out)@ + seq![' '] + spaces((k - n) as nat),
        decreases CELL_WIDTH - k,
    {
        proof {
            reveal_strlit(" ");
        }
        out.append(" ");
        k += 1;
    }
    out.append(cell);
}

/// Appends one line of the grid.
fn push_line(out: &mut String, open: &str, c0: &str, c1: &str, c2: &str, c3: &str, close: &str)
    requires
        open@.len() == 1,
        close@.len() == 1,
    ensures
        final(out)@ == old(out)@ + line_model(open@[0], c0@, c1@, c2@, c3@, close@[0]),
{
    proof {
        reveal_strlit(" ");
    }
    out.append(open);
    push_cell(out, c0);
    push_cell(out, c1);
    push_cell(out, c2);
    push_cell(out, c3);
    out.append(" ");
    out.append(close);
}

/// The grid of the sixteen cells, row by row.
pub fn grid(c: &[String; 16]) -> (s: String)
    ensures
        s@ == grid_model(Seq::new(16, |i: int| c@[i]@)),
{
    proof {
        reveal_strlit("/");
        reveal_strlit("\\");
        reveal_strlit("|");
        reveal_strlit("\n");
    }
    let mut s = String::new();
    push_line(&mut s, "/", c[0].as_str(), c[1].as_str(), c[2].as_str(), c[3].as_str(), "\\");
    s.append("\n");
    push_line(&mut s, "|", c[4].as_str(), c[5].as_str(), c[6].as_str(), c[7].as_str(), "|");
    s.append("\n");
    push_line(&mut s, "|", c[8].as_str(), c[9].as_str(), c[10].as_str(), c[11].as_str(), "|");
    s.append("\n");
    push_line(&mut s, "\\", c[12].as_str(), c[13].as_str(), c[14].as_str(), c[15].as_str(), "/");
    s
}

impl<T: Scalar> Matrix4<T> {
    /// The matrix as a grid of text, each entry written by `cell`.
    pub fn render<F: Fn(T) -> String>(&self, cell: &F) -> (s: String)
        requires
            forall|x: T| call_requires(*cell, (x,)),
        ensures
            rendered(self@, *cell, s@),
    {
        let a = self.to_array();
        let c: [String; 16] = [
            cell(a[0]),
            cell(a[1]),
            cell(a[2]),
            cell(a[3]),
            cell(a[4]),
            cell(a[5]),
            cell(a[6]),
            cell(a[7]),
            cell(a[8]),
            cell(a[9]),
            cell(a[10]),
            cell(a[11]),
            cell(a[12]),
            cell(a[13]),
            cell(a[14]),
            cell(a[15]),
        ];
        let s = grid(&c);
        assert(c@.len() == 16);
        s
    }
}

} // verus!
