//! Cell values and the rows that combine them.

use crate::text::{
    bool_text, decimal, joined, push_bool, push_char, push_decimal, push_sanitized,
    push_signed_decimal, sanitized, signed_decimal,
};
use vstd::prelude::*;
use vstd::string::*;

verus! {

/// One typed scalar that can stand in a parameter axis.
#[derive(Debug, Eq, Hash)]
pub enum MatrixCellValue {
    /// A semantic tag or identifier.
    Tag(String),
    /// A general-purpose text.
    String(String),
    /// A signed integer.
    Int(i64),
    /// An unsigned integer.
    Unsigned(u64),
    /// A boolean.
    Bool(bool),
}

/// What a cell value is, with its texts as sequences of characters.
pub enum CellView {
    Tag(Seq<char>),
    String(Seq<char>),
    Int(i64),
    Unsigned(u64),
    Bool(bool),
}

impl View for MatrixCellValue {
    type V = CellView;

    open spec fn view(&self) -> CellView {
        match self {
            MatrixCellValue::Tag(s) => CellView::Tag(s@),
            MatrixCellValue::String(s) => CellView::String(s@),
            MatrixCellValue::Int(i) => CellView::Int(*i),
            MatrixCellValue::Unsigned(u) => CellView::Unsigned(*u),
            MatrixCellValue::Bool(b) => CellView::Bool(*b),
        }
    }
}

impl CellView {
    /// The display form: tags raw, strings quoted, numbers and booleans
    /// in their canonical text.
    pub open spec fn display(self) -> Seq<char> {
        match self {
            CellView::Tag(s) => s,
            CellView::String(s) => seq!['"'] + s + seq!['"'],
            CellView::Int(i) => signed_decimal(i as int),
            CellView::Unsigned(u) => decimal(u as nat),
            CellView::Bool(b) => bool_text(b),
        }
    }

    /// The name of the variant.
    pub open spec fn variant_name(self) -> Seq<char> {
        match self {
            CellView::Tag(_) => "Tag"@,
            CellView::String(_) => "String"@,
            CellView::Int(_) => "Int"@,
            CellView::Unsigned(_) => "Unsigned"@,
            CellView::Bool(_) => "Bool"@,
        }
    }

    /// The diagnostic form: the variant's name with the display form in
    /// round brackets.
    pub open spec fn debug(self) -> Seq<char> {
        self.variant_name() + seq!['('] + self.display() + seq![')']
    }

    /// The text that stands for the value after an axis name in a named
    /// identifier: tags raw, strings sanitized, numbers and booleans in
    /// their canonical text.
    pub open spec fn plain_fragment(self) -> Seq<char> {
        match self {
            CellView::Tag(s) => s,
            CellView::String(s) => sanitized(s),
            CellView::Int(i) => signed_decimal(i as int),
            CellView::Unsigned(u) => decimal(u as nat),
            CellView::Bool(b) => bool_text(b),
        }
    }

    /// The text that stands for the value in an unnamed identifier:
    /// numbers and booleans carry a prefix that tells their type.
    pub open spec fn fragment(self) -> Seq<char> {
        match self {
            CellView::Tag(s) => s,
            CellView::String(s) => sanitized(s),
            CellView::Int(i) => "Int"@ + signed_decimal(i as int),
            CellView::Unsigned(u) => "Uint"@ + decimal(u as nat),
            CellView::Bool(b) => "Bool"@ + bool_text(b),
        }
    }
}

impl Clone for MatrixCellValue {
    fn clone(&self) -> (copy: Self)
        ensures
            copy@ == self@,
    {
        match self {
            MatrixCellValue::Tag(s) => MatrixCellValue::Tag(s.clone()),
            MatrixCellValue::String(s) => MatrixCellValue::String(s.clone()),
            MatrixCellValue::Int(i) => MatrixCellValue::Int(*i),
            MatrixCellValue::Unsigned(u) => MatrixCellValue::Unsigned(*u),
            MatrixCellValue::Bool(b) => MatrixCellValue::Bool(*b),
        }
    }
}

impl MatrixCellValue {
    /// Appends the display form of the value to `out`.
    fn push_display(&self, out: &mut String)
        ensures
            final(out)@ == old(out)@ + self@.display(),
    {
        match self {
            MatrixCellValue::Tag(s) => out.append(s.as_str()),
            MatrixCellValue::String(s) => {
                push_char(out, '"');
                out.append(s.as_str());
                push_char(out, '"');
            },
            MatrixCellValue::Int(i) => push_signed_decimal(out, *i),
            MatrixCellValue::Unsigned(u) => push_decimal(out, *u),
            MatrixCellValue::Bool(b) => push_bool(out, *b),
        }
    }

    /// Appends the diagnostic form of the value to `out`.
    fn push_debug(&self, out: &mut String)
        ensures
            final(out)@ == old(out)@ + self@.debug(),
    {
        match self {
            MatrixCellValue::Tag(_) => out.append("Tag"),
            MatrixCellValue::String(_) => out.append("String"),
            MatrixCellValue::Int(_) => out.append("Int"),
            MatrixCellValue::Unsigned(_) => out.append("Unsigned"),
            MatrixCellValue::Bool(_) => out.append("Bool"),
        }
        push_char(out, '(');
        self.push_display(out);
        push_char(out, ')');
    }

    /// Appends the plain fragment of the value to `out`.
    fn push_plain_fragment(&self, out: &mut String)
        ensures
            final(out)@ == old(out)@ + self@.plain_fragment(),
    {
        match self {
            MatrixCellValue::Tag(s) => out.append(s.as_str()),
            MatrixCellValue::String(s) => push_sanitized(out, s.as_str()),
            MatrixCellValue::Int(i) => push_signed_decimal(out, *i),
            MatrixCellValue::Unsigned(u) => push_decimal(out, *u),
            MatrixCellValue::Bool(b) => push_bool(out, *b),
        }
    }

    /// Appends the typed fragment of the value to `out`.
    fn push_fragment(&self, out: &mut String)
        ensures
            final(out)@ == old(out)@ + self@.fragment(),
    {
        match self {
            MatrixCellValue::Tag(_) => {},
            MatrixCellValue::String(_) => {},
            MatrixCellValue::Int(_) => out.append("Int"),
            MatrixCellValue::Unsigned(_) => out.append("Uint"),
            MatrixCellValue::Bool(_) => out.append("Bool"),
        }
        self.push_plain_fragment(out);
    }

    /// The display form: a tag as its raw text, a string in double
    /// quotes, a number or boolean in its canonical text.
    pub fn display_string(&self) -> (out: String)
        ensures
            out@ == self@.display(),
    {
        let mut out = String::new();
        self.push_display(&mut out);
        out
    }

    /// The diagnostic form: the variant's name, then the display form in
    /// round brackets.
    pub fn debug_string(&self) -> (out: String)
        ensures
            out@ == self@.debug(),
    {
        let mut out = String::new();
        self.push_debug(&mut out);
        out
    }
}

/// One combination of cell values: a row of the table of configurations,
/// with one cell per axis, in the order of the axes.
#[derive(Debug)]
pub struct AbstractCombination {
    /// The cells of the row.
    pub cells: Vec<MatrixCellValue>,
}

impl View for AbstractCombination {
    type V = Seq<CellView>;

    open spec fn view(&self) -> Seq<CellView> {
        Seq::new(self.cells@.len(), |i: int| self.cells@[i]@)
    }
}

/// The texts of a list of names.
pub open spec fn name_texts(names: Seq<String>) -> Seq<Seq<char>> {
    Seq::new(names.len(), |i: int| names[i]@)
}

/// The typed fragments of the cells, in order.
pub open spec fn fragments(cells: Seq<CellView>) -> Seq<Seq<char>> {
    Seq::new(cells.len(), |i: int| cells[i].fragment())
}

/// For each cell its axis name, a hyphen and its plain fragment.
pub open spec fn named_fragments(cells: Seq<CellView>, names: Seq<Seq<char>>) -> Seq<Seq<char>> {
    Seq::new(cells.len(), |i: int| names[i] + seq!['-'] + cells[i].plain_fragment())
}

/// The unnamed identifier suffix: an underscore, then the typed
/// fragments joined by underscores. For no cells it is the underscore
/// alone.
pub open spec fn suffix(cells: Seq<CellView>) -> Seq<char> {
    seq!['_'] + joined(fragments(cells))
}

/// The named identifier suffix: an underscore, then the named fragments
/// joined by underscores. Where the number of names differs from the
/// number of cells it is the unnamed suffix.
pub open spec fn named_suffix(cells: Seq<CellView>, names: Seq<Seq<char>>) -> Seq<char> {
    if names.len() == cells.len() {
        seq!['_'] + joined(named_fragments(cells, names))
    } else {
        suffix(cells)
    }
}

/// The message of a typed access that found no cell at the index.
pub open spec fn missing_cell_message(index: nat) -> Seq<char> {
    "No cell at index "@ + decimal(index)
}

/// The message of a typed access that found a cell of another variant.
pub open spec fn wrong_variant_message(expected: Seq<char>, index: nat, found: CellView) -> Seq<
    char,
> {
    "Expected "@ + expected + " at index "@ + decimal(index) + ", found "@ + found.debug()
}

/// The message of a failed typed access: it names the index and, where
/// a cell stands there, the cell that was found.
pub open spec fn access_error(cells: Seq<CellView>, index: nat, expected: Seq<char>) -> Seq<char> {
    if index < cells.len() {
        wrong_variant_message(expected, index, cells[index as int])
    } else {
        missing_cell_message(index)
    }
}

/// Joining one part more appends a separator and the part, but for the
/// first part, which stands alone.
pub proof fn lemma_joined_step(parts: Seq<Seq<char>>, i: int)
    requires
        0 <= i < parts.len(),
    ensures
        joined(parts.take(i + 1)) == if i == 0 {
            parts[i]
        } else {
            joined(parts.take(i)) + seq!['_'] + parts[i]
        },
{
    let head = parts.take(i + 1);
    assert(head.last() == parts[i]);
    assert(head.drop_last() == parts.take(i));
    assert(head[0] == parts[0]);
}

impl Clone for AbstractCombination {
    fn clone(&self) -> (copy: Self)
        ensures
            copy@ == self@,
    {
        let mut cells: Vec<MatrixCellValue> = Vec::new();
        let n: usize = self.cells.len();
        let mut i: usize = 0;
        while i < n
            invariant
                n == self.cells@.len(),
                i <= n,
                cells@.len() == i,
                forall|j: int| 0 <= j < i ==> cells@[j]@ == self.cells@[j]@,
            decreases n - i,
        {
            cells.push(self.cells[i].clone());
            i = i + 1;
        }
        let copy = AbstractCombination { cells };
        assert(copy@ =~= self@);
        copy
    }
}

impl AbstractCombination {
    /// Appends the typed fragments, joined by underscores.
    fn push_fragments(&self, out: &mut String)
        ensures
            final(out)@ == old(out)@ + joined(fragments(self@)),
    {
        let ghost parts = fragments(self@);
        let n: usize = self.cells.len();
        let mut i: usize = 0;
        while i < n
            invariant
                n == self.cells@.len(),
                parts == fragments(self@),
                i <= n,
                out@ == old(out)@ + joined(parts.take(i as int)),
            decreases n - i,
        {
            proof {
                lemma_joined_step(parts, i as int);
            }
            if i > 0 {
                push_char(out, '_');
            }
            self.cells[i].push_fragment(out);
            i = i + 1;
        }
        assert(parts.take(n as int) == parts);
    }

    /// Appends the named fragments, joined by underscores.
    fn push_named_fragments(&self, names: &[String], out: &mut String)
        requires
            names@.len() == self.cells@.len(),
        ensures
            final(out)@ == old(out)@ + joined(named_fragments(self@, name_texts(names@))),
    {
        let ghost parts = named_fragments(self@, name_texts(names@));
        let n: usize = self.cells.len();
        let mut i: usize = 0;
        while i < n
            invariant
                n == self.cells@.len(),
                names@.len() == n,
                parts == named_fragments(self@, name_texts(names@)),
                i <= n,
                out@ == old(out)@ + joined(parts.take(i as int)),
            decreases n - i,
        {
            proof {
                lemma_joined_step(parts, i as int);
            }
            if i > 0 {
                push_char(out, '_');
            }
            out.append(names[i].as_str());
            push_char(out, '-');
            self.cells[i].push_plain_fragment(out);
            i = i + 1;
        }
        assert(parts.take(n as int) == parts);
    }

    /// The identifier suffix of the row: `_`, then for each cell its
    /// typed fragment, the fragments separated by `_`.
    pub fn id_suffix(&self) -> (out: String)
        ensures
            out@ == suffix(self@),
    {
        let mut out = String::new();
        push_char(&mut out, '_');
        self.push_fragments(&mut out);
        out
    }

    /// Whether `names` gives exactly one name per cell, so that the
    /// named suffix uses them.
    pub fn names_fit(&self, names: &[String]) -> (fit: bool)
        ensures
            fit == (names@.len() == self@.len()),
    {
        names.len() == self.cells.len()
    }

    /// The identifier suffix with axis names: `_`, then for each cell
    /// its name, `-` and its plain fragment, the parts separated by `_`.
    /// Where `names` does not give one name per cell the result is the
    /// unnamed suffix.
    pub fn id_suffix_with_names(&self, names: &[String]) -> (out: String)
        ensures
            out@ == named_suffix(self@, name_texts(names@)),
    {
        if names.len() != self.cells.len() {
            return self.id_suffix();
        }
        let mut out = String::new();
        push_char(&mut out, '_');
        self.push_named_fragments(names, &mut out);
        out
    }

    /// The label of the row for display: the named suffix where names
    /// are given, the unnamed one otherwise, without the leading `_`.
    pub fn label(&self, names: Option<&[String]>) -> (out: String)
        ensures
            out@ == match names {
                Some(n) => named_suffix(self@, name_texts(n@)).skip(1),
                None => suffix(self@).skip(1),
            },
    {
        let mut out = String::new();
        match names {
            Some(n) => {
                if n.len() == self.cells.len() {
                    self.push_named_fragments(n, &mut out);
                    assert(out@ =~= named_suffix(self@, name_texts(n@)).skip(1));
                } else {
                    self.push_fragments(&mut out);
                    assert(out@ =~= suffix(self@).skip(1));
                }
            },
            None => {
                self.push_fragments(&mut out);
                assert(out@ =~= suffix(self@).skip(1));
            },
        }
        out
    }

    /// The message for a failed access at `index` that expected the
    /// variant named `expected`.
    fn access_failure(&self, index: usize, expected: &str) -> (out: String)
        ensures
            out@ == access_error(self@, index as nat, expected@),
    {
        let mut out = String::new();
        if index < self.cells.len() {
            out.append("Expected ");
            out.append(expected);
            out.append(" at index ");
            push_decimal(&mut out, index as u64);
            out.append(", found ");
            self.cells[index].push_debug(&mut out);
        } else {
            out.append("No cell at index ");
            push_decimal(&mut out, index as u64);
        }
        out
    }

    /// The text of the tag at `index`. Fails where no cell stands there
    /// or the cell is no tag.
    pub fn get_tag(&self, index: usize) -> (result: Result<&str, String>)
        ensures
            match result {
                Ok(s) => index < self@.len() && self@[index as int] == CellView::Tag(s@),
                Err(e) => !(index < self@.len() && self@[index as int] is Tag) && e@
                    == access_error(self@, index as nat, "Tag"@),
            },
    {
        if index < self.cells.len() {
            if let MatrixCellValue::Tag(s) = &self.cells[index] {
                return Ok(s.as_str());
            }
        }
        Err(self.access_failure(index, "Tag"))
    }

    /// The text of the string at `index`. Fails where no cell stands
    /// there or the cell is no string.
    pub fn get_string(&self, index: usize) -> (result: Result<&str, String>)
        ensures
            match result {
                Ok(s) => index < self@.len() && self@[index as int] == CellView::String(s@),
                Err(e) => !(index < self@.len() && self@[index as int] is String) && e@
                    == access_error(self@, index as nat, "String"@),
            },
    {
        if index < self.cells.len() {
            if let MatrixCellValue::String(s) = &self.cells[index] {
                return Ok(s.as_str());
            }
        }
        Err(self.access_failure(index, "String"))
    }

    /// The signed integer at `index`. Fails where no cell stands there
    /// or the cell is no signed integer.
    pub fn get_i64(&self, index: usize) -> (result: Result<i64, String>)
        ensures
            match result {
                Ok(i) => index < self@.len() && self@[index as int] == CellView::Int(i),
                Err(e) => !(index < self@.len() && self@[index as int] is Int) && e@
                    == access_error(self@, index as nat, "Int"@),
            },
    {
        if index < self.cells.len() {
            if let MatrixCellValue::Int(i) = &self.cells[index] {
                return Ok(*i);
            }
        }
        Err(self.access_failure(index, "Int"))
    }

    /// The unsigned integer at `index`. Fails where no cell stands there
    /// or the cell is no unsigned integer.
    pub fn get_u64(&self, index: usize) -> (result: Result<u64, String>)
        ensures
            match result {
                Ok(u) => index < self@.len() && self@[index as int] == CellView::Unsigned(u),
                Err(e) => !(index < self@.len() && self@[index as int] is Unsigned) && e@
                    == access_error(self@, index as nat, "Unsigned"@),
            },
    {
        if index < self.cells.len() {
            if let MatrixCellValue::Unsigned(u) = &self.cells[index] {
                return Ok(*u);
            }
        }
        Err(self.access_failure(index, "Unsigned"))
    }

    /// The boolean at `index`. Fails where no cell stands there or the
    /// cell is no boolean.
    pub fn get_bool(&self, index: usize) -> (result: Result<bool, String>)
        ensures
            match result {
                Ok(b) => index < self@.len() && self@[index as int] == CellView::Bool(b),
                Err(e) => !(index < self@.len() && self@[index as int] is Bool) && e@
                    == access_error(self@, index as nat, "Bool"@),
            },
    {
        if index < self.cells.len() {
            if let MatrixCellValue::Bool(b) = &self.cells[index] {
                return Ok(*b);
            }
        }
        Err(self.access_failure(index, "Bool"))
    }
}

} // verus!
