//! The 4x4 matrix of the scripting session: four rows of four cells.

use steel::parser::ast::IteratorExtensions;
use vstd::prelude::*;

verus! {

/// Four rows of four cells each.
pub open spec fn is_4x4<T>(rows: Seq<Seq<T>>) -> bool {
    &&& rows.len() == 4
    &&& forall|r: int| 0 <= r < 4 ==> (#[trigger] rows[r]).len() == 4
}

/// The texts one after the other, with the separator between each two.
pub open spec fn joined(items: Seq<String>, separator: Seq<char>) -> Seq<char>
    decreases items.len(),
{
    if items.len() == 0 {
        Seq::empty()
    } else if items.len() == 1 {
        items[0]@
    } else {
        joined(items.drop_last(), separator) + separator + items.last()@
    }
}

/// The cells of a row, separated by single spaces.
pub open spec fn row_text(cells: Seq<String>) -> Seq<char> {
    joined(cells, " "@)
}

/// The matrix as it is shown: each row in parentheses, the rows one to a
/// line, the whole in another pair of parentheses.
pub open spec fn matrix_text(rows: Seq<Seq<String>>) -> Seq<char> {
    "(("@ + row_text(rows[0]) + ")\n ("@ + row_text(rows[1]) + ")\n ("@ + row_text(rows[2])
        + ")\n ("@ + row_text(rows[3]) + "))"@
}

/// The cells row after row: cell `column` of row `row` at `4 * row + column`.
pub open spec fn row_major<T>(rows: Seq<Seq<T>>) -> Seq<T> {
    Seq::new(16, |i: int| rows[i / 4][i % 4])
}

/// A 4x4 matrix. The numbers of a matrix are kept as the bit patterns of
/// single-precision floats (`Matrix<u32>`); a matrix that is to be shown
/// holds the text of each number (`Matrix<String>`).
#[derive(Debug, PartialEq, Eq)]
pub struct Matrix<T> {
    elements: Vec<Vec<T>>,
}

impl<T> View for Matrix<T> {
    type V = Seq<Seq<T>>;

    closed spec fn view(&self) -> Seq<Seq<T>> {
        Seq::new(self.elements@.len(), |r: int| self.elements@[r]@)
    }
}

/// `IteratorExtensions::join` of steel's parser, on the items of a vector:
/// the items as they are written, with the separator between each two, and
/// the empty text for no items.
#[verifier::external_body]
fn join(items: &Vec<String>, separator: &str) -> (text: String)
    ensures
        text@ == joined(items@, separator@),
{
    items.iter().join(separator)
}

impl<T> Matrix<T> {
    #[verifier::type_invariant]
    spec fn inv(self) -> bool {
        is_4x4(self@)
    }

    /// Builds a matrix from its four rows. Fails with "Invalid dimensions"
    /// unless every row has exactly four cells.
    pub fn new(row1: Vec<T>, row2: Vec<T>, row3: Vec<T>, row4: Vec<T>) -> (matrix: Result<
        Self,
        String,
    >)
        ensures
            matrix is Ok <==> row1@.len() == 4 && row2@.len() == 4 && row3@.len() == 4
                && row4@.len() == 4,
            matrix is Ok ==> matrix->Ok_0@ == seq![row1@, row2@, row3@, row4@],
            matrix is Err ==> matrix->Err_0@ == "Invalid dimensions"@,
    {
        let ghost rows = seq![row1@, row2@, row3@, row4@];
        if row1.len() == 4 && row1.len() == row2.len() && row2.len() == row3.len() && row3.len()
            == row4.len() {
            let matrix = Matrix { elements: vec![row1, row2, row3, row4] };
            assert(matrix@ =~= rows);
            Ok(matrix)
        } else {
            Err("Invalid dimensions".to_owned())
        }
    }

    /// The cell at the given row and column, both counted from zero.
    pub fn cell(&self, row: usize, column: usize) -> (cell: &T)
        requires
            row < 4,
            column < 4,
        ensures
            is_4x4(self@),
            *cell == self@[row as int][column as int],
    {
        proof {
            use_type_invariant(self);
            assert(self@[row as int].len() == 4);
        }
        &self.elements[row][column]
    }
}

impl Matrix<u32> {
    /// The sixteen numbers row after row.
    pub fn to_row_major(&self) -> (cells: [u32; 16])
        ensures
            cells@ == row_major(self@),
    {
        let cells = [
            *self.cell(0, 0),
            *self.cell(0, 1),
            *self.cell(0, 2),
            *self.cell(0, 3),
            *self.cell(1, 0),
            *self.cell(1, 1),
            *self.cell(1, 2),
            *self.cell(1, 3),
            *self.cell(2, 0),
            *self.cell(2, 1),
            *self.cell(2, 2),
            *self.cell(2, 3),
            *self.cell(3, 0),
            *self.cell(3, 1),
            *self.cell(3, 2),
            *self.cell(3, 3),
        ];
        assert(cells@ =~= row_major(self@));
        cells
    }
}

impl Matrix<String> {
    /// Appends the cells of one row, separated by single spaces.
    fn append_row(&self, text: &mut String, row: usize)
        requires
            row < 4,
        ensures
            final(text)@ == old(text)@ + row_text(self@[row as int]),
    {
        proof {
            use_type_invariant(self);
        }
        let cells = join(&self.elements[row], " ");
        text.append(cells.as_str());
    }

    /// The matrix as text: `((a b c d)\n (e f g h)\n (i j k l)\n (m n o p))`.
    pub fn display(&self) -> (text: String)
        ensures
            text@ == matrix_text(self@),
    {
        let mut text = String::new();
        text.append("((");
        self.append_row(&mut text, 0);
        text.append(")\n (");
        self.append_row(&mut text, 1);
        text.append(")\n (");
        self.append_row(&mut text, 2);
        text.append(")\n (");
        self.append_row(&mut text, 3);
        text.append("))");
        assert(text@ =~= matrix_text(self@));
        text
    }
}

/// Four rows of four texts each make a matrix, and the matrix is shown as
/// exactly those sixteen texts: the rows in their order, one to a line, the
/// cells of a row in their order with single spaces between them.
pub proof fn lemma_rows_shown(
    row1: Seq<String>,
    row2: Seq<String>,
    row3: Seq<String>,
    row4: Seq<String>,
)
    requires
        row1.len() == 4,
        row2.len() == 4,
        row3.len() == 4,
        row4.len() == 4,
    ensures
        is_4x4(seq![row1, row2, row3, row4]),
        matrix_text(seq![row1, row2, row3, row4]) == "(("@ + (row1[0]@ + " "@ + row1[1]@ + " "@
            + row1[2]@ + " "@ + row1[3]@) + ")\n ("@ + (row2[0]@ + " "@ + row2[1]@ + " "@ + row2[2]@
            + " "@ + row2[3]@) + ")\n ("@ + (row3[0]@ + " "@ + row3[1]@ + " "@ + row3[2]@ + " "@
            + row3[3]@) + ")\n ("@ + (row4[0]@ + " "@ + row4[1]@ + " "@ + row4[2]@ + " "@
            + row4[3]@) + "))"@,
{
    let rows = seq![row1, row2, row3, row4];
    assert(rows[0] == row1 && rows[1] == row2 && rows[2] == row3 && rows[3] == row4);
    lemma_joined_four(row1, " "@);
    lemma_joined_four(row2, " "@);
    lemma_joined_four(row3, " "@);
    lemma_joined_four(row4, " "@);
}

/// Four texts joined are the four in their order with three separators.
pub proof fn lemma_joined_four(items: Seq<String>, separator: Seq<char>)
    requires
        items.len() == 4,
    ensures
        joined(items, separator) == items[0]@ + separator + items[1]@ + separator + items[2]@
            + separator + items[3]@,
{
    let three = items.drop_last();
    let two = three.drop_last();
    let one = two.drop_last();
    assert(three.last() == items[2] && two.last() == items[1] && one[0] == items[0]);
    assert(joined(one, separator) == items[0]@);
    assert(joined(two, separator) == joined(one, separator) + separator + items[1]@);
    assert(joined(three, separator) == joined(two, separator) + separator + items[2]@);
}

} // verus!
