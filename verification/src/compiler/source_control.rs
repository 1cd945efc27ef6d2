use crate::text::copy_str;
use vstd::prelude::*;

verus! {

/// Collects instructions and lays them out as a source text: one
/// instruction to a line, each behind as many tabs as the indentation
/// says, between a header and a footer.
#[derive(Debug)]
pub struct SourceControl {
    source: String,
    raw_instructions: Vec<String>,
    indent: usize,
}

/// `n` tabs.
pub open spec fn tabs(n: nat) -> Seq<char>
    decreases n,
{
    if n == 0 {
        Seq::empty()
    } else {
        tabs((n - 1) as nat).push('\t')
    }
}

/// The first `n` instructions laid out: each behind `indent` tabs, and
/// ended by a newline.
pub open spec fn laid_out(lines: Seq<Seq<char>>, indent: nat, n: nat) -> Seq<char>
    decreases n,
{
    if n == 0 || n > lines.len() {
        Seq::empty()
    } else {
        laid_out(lines, indent, (n - 1) as nat) + tabs(indent) + lines[n - 1].push('\n')
    }
}

/// What stands before the instructions.
pub open spec fn header() -> Seq<char> {
    "#include <stdio.h>\nint main(){\n"@
}

/// What stands behind the instructions.
pub open spec fn footer() -> Seq<char> {
    "\n}"@
}

impl SourceControl {
    /// The source text that was generated last.
    pub closed spec fn text(&self) -> Seq<char> {
        self.source@
    }

    /// The instructions, in the order in which they were pushed.
    pub closed spec fn lines(&self) -> Seq<Seq<char>> {
        Seq::new(self.raw_instructions@.len(), |i: int| self.raw_instructions@[i]@)
    }

    /// The number of tabs before each instruction.
    pub closed spec fn indentation(&self) -> nat {
        self.indent as nat
    }

    pub fn new() -> (s: Self)
        ensures
            s.text() == Seq::<char>::empty(),
            s.lines() == Seq::<Seq<char>>::empty(),
            s.indentation() == 1,
    {
        let s = Self { source: String::new(), raw_instructions: Vec::new(), indent: 1 };
        assert(s.lines() =~= Seq::<Seq<char>>::empty());
        s
    }

    /// One tab more before each instruction, as long as the number
    /// fits.
    pub fn incr_indent(&mut self)
        ensures
            final(self).text() == old(self).text(),
            final(self).lines() == old(self).lines(),
            final(self).indentation() == if old(self).indentation() < usize::MAX {
                old(self).indentation() + 1
            } else {
                old(self).indentation()
            },
    {
        if self.indent < usize::MAX {
            self.indent = self.indent + 1;
        }
    }

    /// One tab less before each instruction, but never less than one.
    pub fn decr_indent(&mut self)
        ensures
            final(self).text() == old(self).text(),
            final(self).lines() == old(self).lines(),
            final(self).indentation() == if old(self).indentation() > 1 {
                (old(self).indentation() - 1) as nat
            } else {
                old(self).indentation()
            },
    {
        if self.indent > 1 {
            self.indent = self.indent - 1;
        }
    }

    pub fn insert_header(&mut self)
        ensures
            final(self).text() == header() + old(self).text(),
            final(self).lines() == old(self).lines(),
            final(self).indentation() == old(self).indentation(),
    {
        let mut s = copy_str("#include <stdio.h>\nint main(){\n");
        s.append(self.source.as_str());
        self.source = s;
    }

    pub fn insert_footer(&mut self)
        ensures
            final(self).text() == old(self).text() + footer(),
            final(self).lines() == old(self).lines(),
            final(self).indentation() == old(self).indentation(),
    {
        let mut s = copy_str(self.source.as_str());
        s.append("\n}");
        self.source = s;
    }

    pub fn push_instruction(&mut self, instr: String)
        ensures
            final(self).text() == old(self).text(),
            final(self).lines() == old(self).lines().push(instr@),
            final(self).indentation() == old(self).indentation(),
    {
        self.raw_instructions.push(instr);
        assert(self.lines() =~= old(self).lines().push(instr@));
    }

    /// Lays the instructions out between the header and the footer.
    pub fn gen_source(&mut self)
        ensures
            final(self).text() == header() + laid_out(
                old(self).lines(),
                old(self).indentation(),
                old(self).lines().len(),
            ) + footer(),
            final(self).lines() == old(self).lines(),
            final(self).indentation() == old(self).indentation(),
    {
        let mut body = String::new();
        let ghost lines = self.lines();
        let ghost indent = self.indent as nat;
        let n = self.raw_instructions.len();
        let mut i: usize = 0;
        while i < n
            invariant
                i <= n,
                n == self.raw_instructions@.len(),
                lines == self.lines(),
                indent == self.indent,
                lines.len() == n,
                body@ == laid_out(lines, indent, i as nat),
            decreases n - i,
        {
            let ghost before = body@;
            let mut k: usize = 0;
            while k < self.indent
                invariant
                    k <= self.indent,
                    body@ == before + tabs(k as nat),
                decreases self.indent - k,
            {
                body.push('\t');
                assert(before + tabs(k as nat + 1) =~= (before + tabs(k as nat)).push('\t'));
                k = k + 1;
            }
            body.append(self.raw_instructions[i].as_str());
            body.push('\n');
            assert(body@ =~= before + tabs(indent) + lines[i as int].push('\n'));
            i = i + 1;
        }
        self.source = String::new();
        self.insert_header();
        let mut s = copy_str(self.source.as_str());
        s.append(body.as_str());
        self.source = s;
        self.insert_footer();
        assert(self.source@ =~= header() + laid_out(lines, indent, n as nat) + footer());
    }

    pub fn get_source(&self) -> (s: String)
        ensures
            s@ == self.text(),
    {
        self.source.clone()
    }
}

} // verus!
