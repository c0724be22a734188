//! A line-oriented printer with an indentation depth. Back ends emit text
//! through it and never indent by hand.

use vstd::prelude::*;
use vstd::string::StringExecFns;
use crate::model::{Text, texts};

verus! {

/// The spaces that open a line at a depth: four for each level.
pub open spec fn indent_text(depth: nat) -> Text {
    Seq::new(depth * 4, |i: int| ' ')
}

/// A line at a depth: its indentation and its content.
pub open spec fn line(depth: nat, content: Text) -> Text {
    indent_text(depth) + content
}

/// The lines of a block: an opening brace, the body, a closing brace.
pub open spec fn block(depth: nat, body: Seq<Text>) -> Seq<Text> {
    seq![line(depth, "{"@)] + body + seq![line(depth, "}"@)]
}

/// The lines of a namespace: its name, and the body in a block.
pub open spec fn namespaced(depth: nat, name: Text, body: Seq<Text>) -> Seq<Text> {
    seq![line(depth, "namespace "@ + name)] + block(depth, body)
}

/// What a printer holds: the finished lines, the unfinished line, and the
/// depth at which the next line starts.
pub struct PrinterView {
    pub lines: Seq<Text>,
    pub pending: Text,
    pub indent: nat,
}

impl PrinterView {
    /// The printer after `more` lines were emitted on an empty pending line.
    pub open spec fn with_lines(self, more: Seq<Text>) -> PrinterView {
        PrinterView { lines: self.lines + more, ..self }
    }
}

/// The text of a sequence of lines, each closed by a line feed.
pub open spec fn joined(lines: Seq<Text>) -> Text
    decreases lines.len(),
{
    if lines.len() == 0 {
        Seq::empty()
    } else {
        joined(lines.drop_last()) + lines.last() + seq!['\n']
    }
}

pub struct Printer {
    lines: Vec<String>,
    pending: String,
    indent: usize,
}

impl View for Printer {
    type V = PrinterView;

    closed spec fn view(&self) -> PrinterView {
        PrinterView { lines: texts(self.lines@), pending: self.pending@, indent: self.indent as nat }
    }
}

/// `a` followed by `b`.
pub fn concat(a: &str, b: &str) -> (r: String)
    ensures
        r@ == a@ + b@,
{
    let mut r = String::from_str(a);
    r.append(b);
    r
}

/// `a`, `b` and `c` in a row.
pub fn concat3(a: &str, b: &str, c: &str) -> (r: String)
    ensures
        r@ == a@ + b@ + c@,
{
    let mut r = String::from_str(a);
    r.append(b);
    r.append(c);
    r
}

/// The spaces that open a line at a depth.
pub fn indentation(depth: usize) -> (r: String)
    ensures
        r@ == indent_text(depth as nat),
{
    let mut r = String::new();
    let mut i: usize = 0;
    while i < depth
        invariant
            i <= depth,
            r@ == indent_text(i as nat),
        decreases depth - i,
    {
        proof {
            reveal_strlit("    ");
        }
        r.append("    ");
        i += 1;
        assert(r@ =~= indent_text(i as nat));
    }
    r
}

impl Printer {
    /// A printer that holds nothing, at depth zero.
    pub fn new() -> (p: Printer)
        ensures
            p@ == (PrinterView { lines: Seq::empty(), pending: Seq::empty(), indent: 0 }),
    {
        let p = Printer { lines: Vec::new(), pending: String::new(), indent: 0 };
        assert(p@.lines =~= Seq::empty());
        p
    }

    /// Emits the indentation, then `s`, and ends the line.
    pub fn writeln(&mut self, s: &str)
        ensures
            final(self)@ == (PrinterView {
                lines: old(self)@.lines.push(old(self)@.pending + line(old(self)@.indent, s@)),
                pending: Seq::empty(),
                ..old(self)@
            }),
    {
        let mut full = String::new();
        std::mem::swap(&mut full, &mut self.pending);
        let pad = indentation(self.indent);
        full.append(pad.as_str());
        full.append(s);
        assert(full@ =~= old(self)@.pending + line(old(self)@.indent, s@));
        self.lines.push(full);
        assert(self@.lines =~= old(self)@.lines.push(
            old(self)@.pending + line(old(self)@.indent, s@),
        ));
    }

    /// Ends the line.
    pub fn newline(&mut self)
        ensures
            final(self)@ == (PrinterView {
                lines: old(self)@.lines.push(old(self)@.pending),
                pending: Seq::empty(),
                ..old(self)@
            }),
    {
        let mut full = String::new();
        std::mem::swap(&mut full, &mut self.pending);
        self.lines.push(full);
        assert(self@.lines =~= old(self)@.lines.push(old(self)@.pending));
    }

    /// Appends `s` to the line, without indentation and without ending it.
    pub fn write(&mut self, s: &str)
        ensures
            final(self)@ == (PrinterView { pending: old(self)@.pending + s@, ..old(self)@ }),
    {
        self.pending.append(s);
    }

    /// Opens a block: a brace on a line of its own, and one level deeper.
    pub fn begin_block(&mut self)
        requires
            old(self)@.indent < usize::MAX,
        ensures
            final(self)@ == (PrinterView {
                lines: old(self)@.lines.push(old(self)@.pending + line(old(self)@.indent, "{"@)),
                pending: Seq::empty(),
                indent: old(self)@.indent + 1,
            }),
    {
        self.writeln("{");
        self.indent = self.indent + 1;
    }

    /// Closes a block: one level up, and a brace on a line of its own.
    pub fn end_block(&mut self)
        requires
            old(self)@.indent > 0,
        ensures
            final(self)@ == (PrinterView {
                lines: old(self)@.lines.push(
                    old(self)@.pending + line((old(self)@.indent - 1) as nat, "}"@),
                ),
                pending: Seq::empty(),
                indent: (old(self)@.indent - 1) as nat,
            }),
    {
        self.indent = self.indent - 1;
        self.writeln("}");
    }

    /// Closes a block: one level up, and a brace followed by `suffix` on a
    /// line of its own.
    pub fn end_block_with(&mut self, suffix: &str)
        requires
            old(self)@.indent > 0,
        ensures
            final(self)@ == (PrinterView {
                lines: old(self)@.lines.push(
                    old(self)@.pending + line((old(self)@.indent - 1) as nat, "}"@ + suffix@),
                ),
                pending: Seq::empty(),
                indent: (old(self)@.indent - 1) as nat,
            }),
    {
        self.indent = self.indent - 1;
        let text = concat("}", suffix);
        self.writeln(text.as_str());
    }

    /// The depth at which the next line starts.
    pub fn depth(&self) -> (d: usize)
        ensures
            d == self@.indent,
    {
        self.indent
    }

    /// The finished lines.
    pub fn lines(&self) -> (l: &Vec<String>)
        ensures
            texts(l@) == self@.lines,
    {
        &self.lines
    }

    /// Everything emitted so far: the finished lines, each closed by a line
    /// feed, and the unfinished line.
    pub fn text(&self) -> (t: String)
        ensures
            t@ == joined(self@.lines) + self@.pending,
    {
        let mut t = String::new();
        let mut i: usize = 0;
        while i < self.lines.len()
            invariant
                i <= self.lines.len(),
                t@ == joined(self@.lines.take(i as int)),
            decreases self.lines.len() - i,
        {
            proof {
                reveal_strlit("\n");
                assert(self@.lines.take(i + 1).drop_last() =~= self@.lines.take(i as int));
            }
            t.append(self.lines[i].as_str());
            t.append("\n");
            i += 1;
            assert(t@ =~= joined(self@.lines.take(i as int)));
        }
        assert(self@.lines.take(i as int) =~= self@.lines);
        t.append(self.pending.as_str());
        t
    }
}

/// Emits one line at the printer's depth.
pub fn emit(f: &mut Printer, s: &str)
    requires
        old(f)@.pending.len() == 0,
    ensures
        final(f)@ == old(f)@.with_lines(seq![line(old(f)@.indent, s@)]),
{
    f.writeln(s);
    assert(f@.lines =~= old(f)@.lines + seq![line(old(f)@.indent, s@)]);
    assert(f@.pending =~= old(f)@.pending);
}

/// Emits one empty line.
pub fn blank(f: &mut Printer)
    requires
        old(f)@.pending.len() == 0,
    ensures
        final(f)@ == old(f)@.with_lines(seq![Seq::<char>::empty()]),
{
    f.newline();
    assert(old(f)@.pending =~= Seq::<char>::empty());
    assert(f@.lines =~= old(f)@.lines + seq![Seq::<char>::empty()]);
    assert(f@.pending =~= old(f)@.pending);
}

/// Opens a block at the printer's depth.
pub fn open(f: &mut Printer)
    requires
        old(f)@.pending.len() == 0,
        old(f)@.indent < usize::MAX,
    ensures
        final(f)@ == (PrinterView {
            indent: old(f)@.indent + 1,
            ..old(f)@.with_lines(seq![line(old(f)@.indent, "{"@)])
        }),
{
    f.begin_block();
    assert(f@.lines =~= old(f)@.lines + seq![line(old(f)@.indent, "{"@)]);
    assert(f@.pending =~= old(f)@.pending);
}

/// Closes the block that the printer is in.
pub fn close(f: &mut Printer)
    requires
        old(f)@.pending.len() == 0,
        old(f)@.indent > 0,
    ensures
        final(f)@ == (PrinterView {
            indent: (old(f)@.indent - 1) as nat,
            ..old(f)@.with_lines(seq![line((old(f)@.indent - 1) as nat, "}"@)])
        }),
{
    f.end_block();
    assert(f@.lines =~= old(f)@.lines + seq![line((old(f)@.indent - 1) as nat, "}"@)]);
    assert(f@.pending =~= old(f)@.pending);
}

/// Opens the block of a namespace at the printer's depth.
pub fn open_namespace(f: &mut Printer, name: &str)
    requires
        old(f)@.pending.len() == 0,
        old(f)@.indent < usize::MAX,
    ensures
        final(f)@ == (PrinterView {
            indent: old(f)@.indent + 1,
            ..old(f)@.with_lines(
                seq![line(old(f)@.indent, "namespace "@ + name@), line(old(f)@.indent, "{"@)],
            )
        }),
{
    emit(f, concat("namespace ", name).as_str());
    open(f);
    assert(f@.lines =~= old(f)@.lines + seq![
        line(old(f)@.indent, "namespace "@ + name@),
        line(old(f)@.indent, "{"@),
    ]);
}

/// Closes the block that the printer is in, with `suffix` after the brace.
pub fn close_with(f: &mut Printer, suffix: &str)
    requires
        old(f)@.pending.len() == 0,
        old(f)@.indent > 0,
    ensures
        final(f)@ == (PrinterView {
            indent: (old(f)@.indent - 1) as nat,
            ..old(f)@.with_lines(seq![line((old(f)@.indent - 1) as nat, "}"@ + suffix@)])
        }),
{
    f.end_block_with(suffix);
    assert(f@.lines =~= old(f)@.lines + seq![line((old(f)@.indent - 1) as nat, "}"@ + suffix@)]);
    assert(f@.pending =~= old(f)@.pending);
}

/// The license, one comment per line.
pub open spec fn license_lines(license: Seq<Text>, k: int, depth: nat) -> Seq<Text>
    decreases k,
{
    if k <= 0 {
        Seq::empty()
    } else {
        license_lines(license, k - 1, depth).push(line(depth, "// "@ + license[k - 1]))
    }
}

/// Emits the license, one comment per line.
pub fn print_license(f: &mut Printer, license: &Vec<String>)
    requires
        old(f)@.pending.len() == 0,
    ensures
        final(f)@ == old(f)@.with_lines(
            license_lines(texts(license@), license@.len() as int, old(f)@.indent),
        ),
{
    let ghost all = texts(license@);
    let mut i: usize = 0;
    assert(f@.lines =~= old(f)@.lines + license_lines(all, 0, old(f)@.indent));
    while i < license.len()
        invariant
            i <= license.len(),
            all == texts(license@),
            f@ == old(f)@.with_lines(license_lines(all, i as int, old(f)@.indent)),
            old(f)@.pending.len() == 0,
        decreases license.len() - i,
    {
        let text = concat("// ", license[i].as_str());
        emit(f, text.as_str());
        i += 1;
        assert(f@.lines =~= old(f)@.lines + license_lines(all, i as int, old(f)@.indent));
    }
}

} // verus!
