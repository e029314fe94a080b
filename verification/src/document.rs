//! The ordered in-memory line buffer for one file.

use vstd::prelude::*;
use crate::editor::Position;
use crate::row::Row;
use crate::text::no_newline;

verus! {

/// An ordered sequence of rows (index = line number) plus the optional
/// name of the file they came from. The view is the sequence of the rows'
/// character sequences.
pub struct Document {
    rows: Vec<Row>,
    filename: Option<String>,
}

impl View for Document {
    type V = Seq<Seq<char>>;

    closed spec fn view(&self) -> Seq<Seq<char>> {
        self.rows@.map_values(|r: Row| r@)
    }
}

/// One line of `doc` after a plain character insertion at column `x`:
/// before that column when it exists, appended otherwise.
pub open spec fn line_inserted(line: Seq<char>, x: int, c: char) -> Seq<char> {
    if x < line.len() {
        line.insert(x, c)
    } else {
        line.push(c)
    }
}

/// The buffer after inserting `c` at column `x` of row `y`. A newline
/// splits the addressed row in two instead of entering the row's text; a
/// position one past the last row starts a new row; a position further
/// out leaves the buffer unchanged.
pub open spec fn doc_inserted(doc: Seq<Seq<char>>, x: int, y: int, c: char) -> Seq<Seq<char>> {
    if c == '\n' {
        if y < doc.len() {
            let cut = if x < doc[y].len() {
                x
            } else {
                doc[y].len() as int
            };
            doc.update(y, doc[y].subrange(0, cut)).insert(
                y + 1,
                doc[y].subrange(cut, doc[y].len() as int),
            )
        } else if y == doc.len() {
            doc.push(Seq::<char>::empty())
        } else {
            doc
        }
    } else {
        if y < doc.len() {
            doc.update(y, line_inserted(doc[y], x, c))
        } else if y == doc.len() {
            doc.push(seq![c])
        } else {
            doc
        }
    }
}

/// The buffer after a deletion addressed at column `x` of row `y`: the
/// character at that column is removed when it exists; at or past the end
/// of the row the following row, if any, is joined onto this one and
/// disappears (this is what gives backspace at the start of a line its
/// row-joining behaviour, since backspace deletes at the end of the
/// previous row).
pub open spec fn doc_deleted(doc: Seq<Seq<char>>, x: int, y: int) -> Seq<Seq<char>> {
    if y >= doc.len() {
        doc
    } else if x < doc[y].len() {
        doc.update(y, doc[y].remove(x))
    } else if y + 1 < doc.len() {
        doc.update(y, doc[y] + doc[y + 1]).remove(y + 1)
    } else {
        doc
    }
}

/// The lines of a text, split at newline characters: each newline ends a
/// line, and a final fragment without one still counts as a line, so a
/// trailing newline does not produce an extra empty row.
pub open spec fn split_lines(s: Seq<char>) -> Seq<Seq<char>>
    decreases s.len(),
{
    if s.len() == 0 {
        Seq::<Seq<char>>::empty()
    } else if s[0] == '\n' {
        seq![Seq::<char>::empty()] + split_lines(s.skip(1))
    } else {
        let rest = split_lines(s.skip(1));
        if rest.len() == 0 {
            seq![seq![s[0]]]
        } else {
            seq![seq![s[0]] + rest[0]] + rest.skip(1)
        }
    }
}

/// The text a buffer is saved as: every row followed by a single newline,
/// in row order.
pub open spec fn join_lines(rows: Seq<Seq<char>>) -> Seq<char>
    decreases rows.len(),
{
    if rows.len() == 0 {
        Seq::<char>::empty()
    } else {
        rows[0] + seq!['\n'] + join_lines(rows.skip(1))
    }
}

/// Splitting a non-empty text yields at least one line.
pub proof fn lemma_split_lines_len(s: Seq<char>)
    ensures
        s.len() > 0 ==> split_lines(s).len() >= 1,
{
}

/// A non-empty text without newlines splits into exactly itself.
pub proof fn lemma_split_single_line(line: Seq<char>)
    requires
        no_newline(line),
        line.len() > 0,
    ensures
        split_lines(line) == seq![line],
    decreases line.len(),
{
    reveal_with_fuel(split_lines, 3);
    let t = line.skip(1);
    if line.len() == 1 {
        assert(seq![line[0]] =~= line);
        assert(split_lines(line) =~~= seq![line]);
    } else {
        assert forall|j: int| 0 <= j < t.len() implies t[j] != '\n' by {
            assert(t[j] == line[j + 1]);
        }
        lemma_split_single_line(t);
        assert(seq![line[0]] + t =~= line);
        assert(split_lines(line) =~~= seq![line]);
    }
}

/// A newline right after a newline-free prefix closes exactly one line.
pub proof fn lemma_split_line_prefix(line: Seq<char>, rest: Seq<char>)
    requires
        no_newline(line),
    ensures
        split_lines(line + seq!['\n'] + rest) == seq![line] + split_lines(rest),
    decreases line.len(),
{
    let s = line + seq!['\n'] + rest;
    if line.len() == 0 {
        assert(s[0] == '\n');
        assert(s.skip(1) =~= rest);
        assert(split_lines(s) =~~= seq![line] + split_lines(rest));
    } else {
        assert(s[0] == line[0]);
        let t = line.skip(1);
        assert forall|j: int| 0 <= j < t.len() implies t[j] != '\n' by {
            assert(t[j] == line[j + 1]);
        }
        lemma_split_line_prefix(t, rest);
        assert(s.skip(1) =~= t + seq!['\n'] + rest);
        let r2 = split_lines(s.skip(1));
        assert(r2 == seq![t] + split_lines(rest));
        assert(r2.len() >= 1 && r2[0] == t);
        assert(seq![s[0]] + t =~= line);
        assert(r2.skip(1) =~~= split_lines(rest));
        assert(split_lines(s) =~~= seq![line] + split_lines(rest));
    }
}

/// Joining one more row appends its text and a newline.
pub proof fn lemma_join_push(rows: Seq<Seq<char>>, r: Seq<char>)
    ensures
        join_lines(rows.push(r)) == join_lines(rows) + r + seq!['\n'],
    decreases rows.len(),
{
    reveal_with_fuel(join_lines, 3);
    if rows.len() == 0 {
        assert(rows.push(r).skip(1) =~~= Seq::<Seq<char>>::empty());
        assert(rows.push(r)[0] == r);
        assert(join_lines(rows.push(r)) =~= join_lines(rows) + r + seq!['\n']);
    } else {
        lemma_join_push(rows.skip(1), r);
        assert(rows.push(r).skip(1) =~~= rows.skip(1).push(r));
        assert(rows.push(r)[0] == rows[0]);
        assert(join_lines(rows.push(r)) =~= join_lines(rows) + r + seq!['\n']);
    }
}

/// Round trip: saving what was opened, with no edits in between,
/// reproduces the original text exactly when it ended in a newline (or
/// was empty), and otherwise reproduces it with the missing final newline
/// supplied.
pub proof fn lemma_open_save_round_trip(s: Seq<char>)
    ensures
        s.len() == 0 ==> join_lines(split_lines(s)) == s,
        s.len() > 0 && s.last() == '\n' ==> join_lines(split_lines(s)) == s,
        s.len() > 0 && s.last() != '\n' ==> join_lines(split_lines(s)) == s + seq!['\n'],
    decreases s.len(),
{
    reveal_with_fuel(split_lines, 3);
    reveal_with_fuel(join_lines, 3);
    if s.len() == 0 {
        assert(join_lines(split_lines(s)) =~= s);
    } else {
        let t = s.skip(1);
        if s[0] == '\n' {
            let sp = split_lines(s);
            assert(sp[0] =~= Seq::<char>::empty());
            assert(sp.skip(1) =~~= split_lines(t));
            if t.len() == 0 {
                assert(split_lines(t).len() == 0);
                assert(join_lines(sp) =~= seq!['\n']);
                assert(s =~= seq!['\n']);
            } else {
                lemma_open_save_round_trip(t);
                assert(s.last() == t.last());
                if t.last() == '\n' {
                    assert(join_lines(sp) =~= seq!['\n'] + t);
                    assert(seq!['\n'] + t =~= s);
                } else {
                    assert(join_lines(sp) =~= seq!['\n'] + (t + seq!['\n']));
                    assert(seq!['\n'] + (t + seq!['\n']) =~= s + seq!['\n']);
                }
            }
        } else {
            if t.len() == 0 {
                assert(split_lines(t).len() == 0);
                let sp = split_lines(s);
                assert(sp == seq![seq![s[0]]]);
                assert(sp.skip(1) =~~= Seq::<Seq<char>>::empty());
                assert(join_lines(sp) =~= s + seq!['\n']);
                assert(s.last() == s[0]);
            } else {
                lemma_open_save_round_trip(t);
                lemma_split_lines_len(t);
                let rest = split_lines(t);
                let sp = split_lines(s);
                assert(sp == seq![seq![s[0]] + rest[0]] + rest.skip(1));
                assert(sp[0] == seq![s[0]] + rest[0]);
                assert(sp.skip(1) =~~= rest.skip(1));
                assert(join_lines(sp) =~= seq![s[0]] + join_lines(rest));
                assert(s.last() == t.last());
                if t.last() == '\n' {
                    assert(join_lines(sp) =~= seq![s[0]] + t);
                    assert(seq![s[0]] + t =~= s);
                } else {
                    assert(join_lines(sp) =~= seq![s[0]] + (t + seq!['\n']));
                    assert(seq![s[0]] + (t + seq!['\n']) =~= s + seq!['\n']);
                }
            }
        }
    }
}

impl Document {
    /// The name of the backing file, as a character sequence, if one is
    /// set.
    pub closed spec fn spec_filename(&self) -> Option<Seq<char>> {
        match self.filename {
            Some(ref n) => Some(n@),
            None => None,
        }
    }

    /// The name of the backing file, if one is set; unset until the user
    /// names the file.
    pub fn filename(&self) -> (r: &Option<String>)
        ensures
            match r {
                Some(n) => self.spec_filename() == Some(n@),
                None => self.spec_filename() is None,
            },
    {
        &self.filename
    }

    /// Whether a backing file name is set.
    pub fn has_filename(&self) -> (b: bool)
        ensures
            b == (self.spec_filename() is Some),
    {
        self.filename.is_some()
    }

    /// Names the backing file.
    pub fn set_filename(&mut self, name: String)
        ensures
            final(self)@ == old(self)@,
            final(self).spec_filename() == Some(name@),
    {
        self.filename = Some(name);
    }

    /// Every row is free of newline characters.
    pub open spec fn wf(&self) -> bool {
        forall|i: int| 0 <= i < self@.len() ==> no_newline(#[trigger] self@[i])
    }

    /// The number of rows.
    pub fn len(&self) -> (n: usize)
        ensures
            n == self@.len(),
    {
        self.rows.len()
    }

    /// Whether the buffer holds no rows at all.
    pub fn is_empty(&self) -> (b: bool)
        ensures
            b == (self@.len() == 0),
    {
        self.rows.len() == 0
    }

    /// The row at `index`, or nothing when the index is out of range; the
    /// render pipeline and the movement engine rely on this to stay total
    /// on boundary coordinates.
    pub fn row(&self, index: usize) -> (r: Option<&Row>)
        ensures
            match r {
                Some(row) => index < self@.len() && row@ == self@[index as int],
                None => index >= self@.len(),
            },
    {
        if index < self.rows.len() {
            Some(&self.rows[index])
        } else {
            None
        }
    }

    /// A buffer built from a file's full text, split at line boundaries,
    /// carrying the given file name.
    pub fn from_text(text: &str, filename: Option<String>) -> (d: Document)
        ensures
            d@ == split_lines(text@),
            d.wf(),
            match filename {
                Some(n) => d.spec_filename() == Some(n@),
                None => d.spec_filename() is None,
            },
    {
        let chars = crate::text::str_chars(text);
        let mut rows: Vec<Row> = Vec::new();
        let mut cur = Row::new();
        let mut i: usize = 0;
        proof {
            assert(cur@ + text@.skip(0) =~= text@);
            assert(rows@.map_values(|r: Row| r@) =~~= Seq::<Seq<char>>::empty());
        }
        while i < chars.len()
            invariant
                i <= chars@.len(),
                chars@ == text@,
                cur.wf(),
                forall|k: int| 0 <= k < rows@.len() ==> (#[trigger] rows@[k]).wf(),
                split_lines(text@) == rows@.map_values(|r: Row| r@) + split_lines(
                    cur@ + text@.skip(i as int),
                ),
            decreases chars@.len() - i,
        {
            let c = chars[i];
            if c == '\n' {
                proof {
                    assert(cur@ + text@.skip(i as int) =~= cur@ + seq!['\n'] + text@.skip(
                        i as int + 1,
                    ));
                    lemma_split_line_prefix(cur@, text@.skip(i as int + 1));
                }
                let ghost rows0 = rows@;
                let ghost cur0 = cur@;
                rows.push(cur);
                cur = Row::new();
                proof {
                    assert(rows@.map_values(|r: Row| r@) =~~= rows0.map_values(|r: Row| r@)
                        + seq![cur0]);
                    assert(cur@ + text@.skip(i as int + 1) =~= text@.skip(i as int + 1));
                    assert(rows@.map_values(|r: Row| r@) + split_lines(text@.skip(i as int + 1))
                        =~~= rows0.map_values(|r: Row| r@) + (seq![cur0] + split_lines(
                        text@.skip(i as int + 1),
                    )));
                }
            } else {
                let ghost cur0 = cur@;
                let l = cur.len();
                cur.insert(l, c);
                proof {
                    assert(cur@ + text@.skip(i as int + 1) =~= cur0 + text@.skip(i as int));
                }
            }
            i = i + 1;
        }
        proof {
            assert(cur@ + text@.skip(i as int) =~= cur@);
        }
        if cur.is_empty() {
            let d = Document { rows, filename };
            proof {
                assert(d@ =~~= split_lines(text@));
            }
            d
        } else {
            proof {
                lemma_split_single_line(cur@);
            }
            let ghost rows0 = rows@;
            let ghost cur0 = cur@;
            rows.push(cur);
            let d = Document { rows, filename };
            proof {
                assert(d@ =~~= rows0.map_values(|r: Row| r@) + seq![cur0]);
                assert(d@ =~~= split_lines(text@));
            }
            d
        }
    }

    /// The full text the buffer persists as: every row's characters
    /// followed by a single newline, in row order.
    pub fn contents(&self) -> (s: String)
        ensures
            s@ == join_lines(self@),
    {
        let mut s = String::new();
        let mut i: usize = 0;
        proof {
            assert(self@.take(0) =~~= Seq::<Seq<char>>::empty());
        }
        while i < self.rows.len()
            invariant
                i <= self@.len(),
                self@.len() == self.rows@.len(),
                s@ == join_lines(self@.take(i as int)),
            decreases self@.len() - i,
        {
            let line = self.rows[i].contents();
            s.append(line.as_str());
            s.push('\n');
            proof {
                assert(self@[i as int] == self.rows@[i as int]@);
                assert(self@.take(i as int).push(self@[i as int]) =~~= self@.take(i as int + 1));
                lemma_join_push(self@.take(i as int), self@[i as int]);
            }
            i = i + 1;
        }
        proof {
            assert(self@.take(self@.len() as int) =~~= self@);
        }
        s
    }

    /// Inserts `c` at `at`: a newline splits the addressed row, any other
    /// character enters the row's text at that column.
    pub fn insert(&mut self, at: &Position, c: char)
        ensures
            final(self)@ == doc_inserted(old(self)@, at.x as int, at.y as int, c),
            final(self).spec_filename() == old(self).spec_filename(),
            old(self).wf() && c != '\n' ==> final(self).wf(),
            old(self).wf() && c == '\n' ==> final(self).wf(),
    {
        let ghost doc0 = self@;
        if c == '\n' {
            if at.y < self.rows.len() {
                let mut row = self.rows.remove(at.y);
                let rest = row.split(at.x);
                self.rows.insert(at.y, row);
                self.rows.insert(at.y + 1, rest);
                proof {
                    assert(self@ =~~= doc_inserted(doc0, at.x as int, at.y as int, c));
                }
            } else if at.y == self.rows.len() {
                self.rows.push(Row::new());
                proof {
                    assert(self@ =~~= doc_inserted(doc0, at.x as int, at.y as int, c));
                }
            }
        } else {
            if at.y < self.rows.len() {
                let mut row = self.rows.remove(at.y);
                row.insert(at.x, c);
                self.rows.insert(at.y, row);
                proof {
                    assert(self@ =~~= doc_inserted(doc0, at.x as int, at.y as int, c));
                }
            } else if at.y == self.rows.len() {
                let mut row = Row::new();
                row.insert(0, c);
                self.rows.push(row);
                proof {
                    assert(self@ =~~= doc_inserted(doc0, at.x as int, at.y as int, c));
                }
            }
        }
    }

    /// Deletes at `at`: removes the character at that column when there is
    /// one; at or past the end of the row, joins the following row (if
    /// any) onto this one, shrinking the buffer by exactly one row.
    pub fn delete(&mut self, at: &Position)
        ensures
            final(self)@ == doc_deleted(old(self)@, at.x as int, at.y as int),
            final(self).spec_filename() == old(self).spec_filename(),
            old(self).wf() ==> final(self).wf(),
            at.y < old(self)@.len() && at.x >= old(self)@[at.y as int].len() && at.y + 1 < old(
                self,
            )@.len() ==> {
                &&& final(self)@.len() == old(self)@.len() - 1
                &&& final(self)@[at.y as int] == old(self)@[at.y as int] + old(self)@[at.y + 1]
            },
    {
        let ghost doc0 = self@;
        if at.y >= self.rows.len() {
            return ;
        }
        let row_len = self.rows[at.y].len();
        if at.x < row_len {
            let mut row = self.rows.remove(at.y);
            row.delete(at.x);
            self.rows.insert(at.y, row);
            proof {
                assert(self@ =~~= doc_deleted(doc0, at.x as int, at.y as int));
            }
        } else if at.y + 1 < self.rows.len() {
            let next = self.rows.remove(at.y + 1);
            let mut row = self.rows.remove(at.y);
            row.append(&next);
            self.rows.insert(at.y, row);
            proof {
                assert(self@ =~~= doc_deleted(doc0, at.x as int, at.y as int));
            }
        }
    }
}

impl Default for Document {
    /// An empty, unnamed buffer.
    fn default() -> (d: Document)
        ensures
            d@ == Seq::<Seq<char>>::empty(),
            d.spec_filename() is None,
            d.wf(),
    {
        let d = Document { rows: Vec::new(), filename: None };
        proof {
            assert(d@ =~~= Seq::<Seq<char>>::empty());
        }
        d
    }
}

} // verus!
