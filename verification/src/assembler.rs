//! Assembler front end: label collection and code generation over assembly
//! text.
//!
//! The text is processed line by line: comments and blank lines are skipped,
//! a line ending in a colon defines a label at the current address, and any
//! other line is encoded as one 4-byte instruction.  The instruction encoder
//! itself is a stub that recognizes only `addi`, as a placeholder for the
//! full mnemonic table.

use crate::instruction::InstructionEncoder;
use crate::instruction::Word;
use crate::instruction::spec_encode_i;
use crate::text::first_token;
use crate::text::spec_first_token;
use crate::text::spec_trim;
use crate::text::spec_trim_end_colons;
use crate::text::str_eq;
use crate::text::trim_end_colons;
use crate::text::trim_str;
use vstd::prelude::*;

verus! {

/// What `str::to_lowercase` returns for a given character sequence: the
/// result depends on the characters alone.
pub uninterp spec fn lower_of(s: Seq<char>) -> Seq<char>;

/// Relies on str::to_lowercase: the lowercase mapping is a function of the
/// characters alone, and an empty string stays empty.
#[verifier::external_body]
fn lowercase(s: &str) -> (r: String)
    ensures
        r@ == lower_of(s@),
        s@.len() == 0 ==> r@.len() == 0,
{
    s.to_lowercase()
}

/// Why assembly text was rejected.
#[derive(Debug, Clone, PartialEq, Eq)]
pub enum AsmError {
    ParseError(String),
    UnknownInstruction(String),
    InvalidRegister(String),
    UndefinedLabel(String),
    InvalidImmediate(String),
}

/// Label definitions in insertion order; a later definition of the same
/// name shadows an earlier one.
pub struct LabelTable {
    pub entries: Vec<(String, u32)>,
}

/// The entries with their names as character sequences.
pub open spec fn spec_label_views(entries: Seq<(String, u32)>) -> Seq<(Seq<char>, u32)> {
    entries.map_values(|e: (String, u32)| (e.0@, e.1))
}

/// Address of the most recent definition of `key`, if any.
pub open spec fn spec_lookup(entries: Seq<(Seq<char>, u32)>, key: Seq<char>) -> Option<u32>
    decreases entries.len(),
{
    if entries.len() == 0 {
        None
    } else if entries.last().0 == key {
        Some(entries.last().1)
    } else {
        spec_lookup(entries.drop_last(), key)
    }
}

impl LabelTable {
    pub fn new() -> (t: LabelTable)
        ensures
            t.entries@ == Seq::<(String, u32)>::empty(),
    {
        LabelTable { entries: Vec::new() }
    }

    /// Define `label` at `address`; an earlier definition is shadowed.
    pub fn insert(&mut self, label: String, address: u32)
        ensures
            final(self).entries@ == old(self).entries@.push((label, address)),
    {
        self.entries.push((label, address));
    }

    /// Address of the most recent definition of `label`.
    pub fn get(&self, label: &str) -> (r: Option<u32>)
        ensures
            r == spec_lookup(spec_label_views(self.entries@), label@),
    {
        let ghost views = spec_label_views(self.entries@);
        let mut i: usize = self.entries.len();
        proof {
            assert(views.take(i as int) =~= views);
        }
        while i > 0
            invariant
                i <= self.entries@.len(),
                views == spec_label_views(self.entries@),
                spec_lookup(views, label@) == spec_lookup(views.take(i as int), label@),
            decreases i,
        {
            i = i - 1;
            if str_eq(self.entries[i].0.as_str(), label) {
                proof {
                    assert(views.take(i + 1).last() == (self.entries@[i as int].0@, self.entries@[
                        i as int
                    ].1));
                }
                return Some(self.entries[i].1);
            }
            proof {
                assert(views.take(i + 1).last().0 != label@);
                assert(views.take(i + 1).drop_last() =~= views.take(i as int));
            }
        }
        proof {
            assert(views.take(0) =~= Seq::<(Seq<char>, u32)>::empty());
        }
        None
    }
}

impl Default for LabelTable {
    fn default() -> (t: LabelTable)
        ensures
            t.entries@ == Seq::<(String, u32)>::empty(),
    {
        LabelTable::new()
    }
}

/// Syntactic check of one line of assembly text; the grammar is a stub that
/// accepts everything.
pub fn parse_assembly(line: &str) -> (r: Result<(), AsmError>)
    ensures
        r matches Ok(_),
{
    if trim_str(line).is_empty() {
        return Ok(());
    }
    Ok(())
}

/// The one instruction word the stub encoder emits, for `addi`.
pub open spec fn spec_addi_stub_word() -> Word {
    spec_encode_i(0b0010011, 1, 0b000, 0, 42)
}

/// Encode one instruction line.  The mnemonic is the line's first token,
/// folded to lower case; only `addi` is recognized so far, and its operands
/// are not yet parsed.  An all-whitespace line cannot be encoded, and an
/// unknown mnemonic is reported back, lowercased.
pub fn encode_instruction(line: &str, _address: u32, _labels: &LabelTable) -> (r: Result<
    Word,
    AsmError,
>)
    ensures
        match r {
            Ok(w) => spec_first_token(line@).len() > 0 && lower_of(spec_first_token(line@))
                == "addi"@ && w == spec_addi_stub_word(),
            Err(e) => match e {
                AsmError::ParseError(m) => spec_first_token(line@).len() == 0 && m@
                    == "Empty instruction"@,
                AsmError::UnknownInstruction(m) => spec_first_token(line@).len() > 0 && lower_of(
                    spec_first_token(line@),
                ) != "addi"@ && m@ == lower_of(spec_first_token(line@)),
                _ => false,
            },
        },
{
    match first_token(line) {
        None => Err(AsmError::ParseError("Empty instruction".to_owned())),
        Some(token) => {
            let mnemonic = lowercase(token);
            if str_eq(mnemonic.as_str(), "addi") {
                Ok(InstructionEncoder::i_type(0b0010011, 1, 0b000, 0, 42))
            } else {
                Err(AsmError::UnknownInstruction(mnemonic))
            }
        },
    }
}

/// Index of the first newline in `s`, or its length when there is none.
pub open spec fn spec_first_nl(s: Seq<char>) -> nat
    decreases s.len(),
{
    if s.len() == 0 {
        0
    } else if s[0] == '\n' {
        0
    } else {
        1 + spec_first_nl(s.drop_first())
    }
}

/// A line that ended at a newline loses one trailing carriage return.
pub open spec fn spec_strip_cr(l: Seq<char>) -> Seq<char> {
    if l.len() > 0 && l[l.len() - 1] == '\r' {
        l.drop_last()
    } else {
        l
    }
}

/// The labels that collecting over `s` defines, in order, starting at
/// `addr`: a trimmed line ending in a colon defines its name (trailing
/// colons removed) at the current address; blank and comment lines are
/// skipped; any other line advances the address by one instruction.
pub open spec fn spec_collect_labels(s: Seq<char>, addr: u32) -> Seq<(Seq<char>, u32)>
    decreases s.len(),
{
    if s.len() == 0 {
        Seq::empty()
    } else {
        let nl = spec_first_nl(s);
        if nl < s.len() {
            let t = spec_trim(spec_strip_cr(s.take(nl as int)));
            let rest = s.skip(nl + 1 as int);
            if t.len() == 0 || t[0] == '#' {
                spec_collect_labels(rest, addr)
            } else if t[t.len() - 1] == ':' {
                seq![(spec_trim_end_colons(t), addr)] + spec_collect_labels(rest, addr)
            } else {
                spec_collect_labels(rest, ((addr + 4) % 0x1_0000_0000) as u32)
            }
        } else {
            let t = spec_trim(s);
            if t.len() == 0 || t[0] == '#' {
                Seq::empty()
            } else if t[t.len() - 1] == ':' {
                seq![(spec_trim_end_colons(t), addr)]
            } else {
                Seq::empty()
            }
        }
    }
}

/// Outcome of generating code over assembly text: the program, or the first
/// failure.
pub ghost enum GenOutcome {
    /// Every instruction line encoded: the `(address, word)` pairs in order.
    Program(Seq<(u32, u32)>),
    /// A line whose first token is missing (unreachable after trimming, but
    /// part of the encoder's contract).
    EmptyLine,
    /// A line whose lowercased mnemonic is not recognized.
    Unknown(Seq<char>),
}

/// Prepend already-generated entries to an outcome.
pub open spec fn spec_gen_prepend(p: Seq<(u32, u32)>, o: GenOutcome) -> GenOutcome {
    match o {
        GenOutcome::Program(v) => GenOutcome::Program(p + v),
        GenOutcome::EmptyLine => GenOutcome::EmptyLine,
        GenOutcome::Unknown(t) => GenOutcome::Unknown(t),
    }
}

/// One instruction line's outcome and the generation over the rest.
pub open spec fn spec_gen_line(t: Seq<char>, addr: u32, rest_outcome: GenOutcome) -> GenOutcome {
    let token = spec_first_token(t);
    if token.len() == 0 {
        GenOutcome::EmptyLine
    } else if lower_of(token) == "addi"@ {
        spec_gen_prepend(seq![(addr, spec_addi_stub_word())], rest_outcome)
    } else {
        GenOutcome::Unknown(lower_of(token))
    }
}

/// Code generation over `s` starting at `addr`: blank, comment and label
/// lines are skipped; every other line encodes to one word at the running
/// address.
pub open spec fn spec_generate(s: Seq<char>, addr: u32) -> GenOutcome
    decreases s.len(),
{
    if s.len() == 0 {
        GenOutcome::Program(Seq::empty())
    } else {
        let nl = spec_first_nl(s);
        if nl < s.len() {
            let t = spec_trim(spec_strip_cr(s.take(nl as int)));
            let rest = s.skip(nl + 1 as int);
            if t.len() == 0 || t[0] == '#' || t[t.len() - 1] == ':' {
                spec_generate(rest, addr)
            } else {
                spec_gen_line(t, addr, spec_generate(rest, ((addr + 4) % 0x1_0000_0000) as u32))
            }
        } else {
            let t = spec_trim(s);
            if t.len() == 0 || t[0] == '#' || t[t.len() - 1] == ':' {
                GenOutcome::Program(Seq::empty())
            } else {
                spec_gen_line(t, addr, GenOutcome::Program(Seq::empty()))
            }
        }
    }
}

/// Two-pass assembler: labels first, then code.
pub struct Assembler {
    pub labels: LabelTable,
}

impl Assembler {
    pub fn new() -> (a: Assembler)
        ensures
            a.labels.entries@ == Seq::<(String, u32)>::empty(),
    {
        Assembler { labels: LabelTable::new() }
    }

    /// Assemble a program: collect every label, then generate the machine
    /// code.  `Ok` holds the `(address, word)` pairs exactly when every
    /// instruction line encodes; the first failing line's error comes back
    /// otherwise.
    pub fn assemble(&mut self, source: &str) -> (r: Result<Vec<(u32, Word)>, AsmError>)
        requires
            source@.len() < 0x4000_0000,
        ensures
            spec_label_views(final(self).labels.entries@) == spec_label_views(
                old(self).labels.entries@,
            ) + spec_collect_labels(source@, 0),
            match r {
                Ok(v) => spec_generate(source@, 0) == GenOutcome::Program(v@),
                Err(e) => match e {
                    AsmError::ParseError(m) => spec_generate(source@, 0)
                        == GenOutcome::EmptyLine && m@ == "Empty instruction"@,
                    AsmError::UnknownInstruction(m) => spec_generate(source@, 0) matches
                        GenOutcome::Unknown(t) && m@ == t,
                    _ => false,
                },
            },
    {
        match self.collect_labels(source) {
            Ok(()) => {},
            Err(e) => {
                return Err(e);
            },
        }
        self.generate_code(source)
    }

    /// First pass: walk the lines and define every label at the address of
    /// the instruction that follows it.
    fn collect_labels(&mut self, source: &str) -> (r: Result<(), AsmError>)
        requires
            source@.len() < 0x4000_0000,
        ensures
            r matches Ok(_),
            spec_label_views(final(self).labels.entries@) == spec_label_views(
                old(self).labels.entries@,
            ) + spec_collect_labels(source@, 0),
    {
        let ghost orig = spec_label_views(self.labels.entries@);
        let n = source.unicode_len();
        let mut pos: usize = 0;
        let mut address: u32 = 0;
        proof {
            assert(source@.skip(0) =~= source@);
        }
        while pos < n
            invariant
                pos <= n,
                n == source@.len(),
                n < 0x4000_0000,
                address <= 4 * pos,
                spec_label_views(self.labels.entries@) + spec_collect_labels(
                    source@.skip(pos as int),
                    address,
                ) == orig + spec_collect_labels(source@, 0),
            decreases n - pos,
        {
            let ghost views_before = spec_label_views(self.labels.entries@);
            let ghost s = source@.skip(pos as int);
            let ghost nl = spec_first_nl(s);
            let (line, next) = next_line(source, pos);
            let t = trim_str(line);
            let tn = t.unicode_len();
            proof {
                if nl >= s.len() {
                    assert(t@ == spec_trim(s));
                    assert(source@.skip(next as int) =~= Seq::<char>::empty());
                }
            }
            if tn == 0 || t.get_char(0) == '#' {
                // Blank or comment line: nothing defined, address unchanged.
                proof {
                    if nl < s.len() {
                        assert(spec_collect_labels(s, address) == spec_collect_labels(
                            source@.skip(next as int),
                            address,
                        ));
                    } else {
                        assert(spec_collect_labels(s, address) =~= Seq::<(
                            Seq<char>,
                            u32,
                        )>::empty());
                        assert(spec_collect_labels(source@.skip(next as int), address) =~= Seq::<
                            (Seq<char>, u32),
                        >::empty());
                    }
                }
            } else if t.get_char(tn - 1) == ':' {
                let stripped = trim_end_colons(t);
                let label = stripped.to_owned();
                self.labels.insert(label, address);
                proof {
                    let entry = (spec_trim_end_colons(t@), address);
                    assert(spec_label_views(self.labels.entries@) =~= views_before.push(entry));
                    if nl < s.len() {
                        assert(spec_collect_labels(s, address) == seq![entry]
                            + spec_collect_labels(source@.skip(next as int), address));
                    } else {
                        assert(spec_collect_labels(s, address) =~= seq![entry]);
                        assert(spec_collect_labels(source@.skip(next as int), address) =~= Seq::<
                            (Seq<char>, u32),
                        >::empty());
                    }
                    assert(views_before.push(entry) + spec_collect_labels(
                        source@.skip(next as int),
                        address,
                    ) =~= views_before + (seq![entry] + spec_collect_labels(
                        source@.skip(next as int),
                        address,
                    )));
                }
            } else {
                proof {
                    if nl < s.len() {
                        assert(spec_collect_labels(s, address) == spec_collect_labels(
                            source@.skip(next as int),
                            ((address + 4) % 0x1_0000_0000) as u32,
                        ));
                    } else {
                        assert(spec_collect_labels(s, address) =~= Seq::<(
                            Seq<char>,
                            u32,
                        )>::empty());
                        assert(spec_collect_labels(source@.skip(next as int), (address
                            + 4) as u32) =~= Seq::<(Seq<char>, u32)>::empty());
                    }
                }
                address = address + 4;
            }
            pos = next;
        }
        proof {
            assert(source@.skip(n as int) =~= Seq::<char>::empty());
            assert(spec_label_views(self.labels.entries@) + Seq::<(Seq<char>, u32)>::empty()
                =~= spec_label_views(self.labels.entries@));
        }
        Ok(())
    }

    /// Second pass: encode every instruction line at its address.
    fn generate_code(&self, source: &str) -> (r: Result<Vec<(u32, Word)>, AsmError>)
        requires
            source@.len() < 0x4000_0000,
        ensures
            match r {
                Ok(v) => spec_generate(source@, 0) == GenOutcome::Program(v@),
                Err(e) => match e {
                    AsmError::ParseError(m) => spec_generate(source@, 0)
                        == GenOutcome::EmptyLine && m@ == "Empty instruction"@,
                    AsmError::UnknownInstruction(m) => spec_generate(source@, 0) matches
                        GenOutcome::Unknown(t) && m@ == t,
                    _ => false,
                },
            },
    {
        let mut program: Vec<(u32, Word)> = Vec::new();
        let n = source.unicode_len();
        let mut pos: usize = 0;
        let mut address: u32 = 0;
        proof {
            assert(source@.skip(0) =~= source@);
            assert(spec_gen_prepend(Seq::<(u32, u32)>::empty(), spec_generate(source@, 0))
                =~= spec_generate(source@, 0));
        }
        while pos < n
            invariant
                pos <= n,
                n == source@.len(),
                n < 0x4000_0000,
                address <= 4 * pos,
                spec_gen_prepend(program@, spec_generate(source@.skip(pos as int), address))
                    == spec_generate(source@, 0),
            decreases n - pos,
        {
            let ghost program_before = program@;
            let ghost s = source@.skip(pos as int);
            let ghost nl = spec_first_nl(s);
            let (line, next) = next_line(source, pos);
            let t = trim_str(line);
            let tn = t.unicode_len();
            proof {
                if nl >= s.len() {
                    assert(t@ == spec_trim(s));
                    assert(source@.skip(next as int) =~= Seq::<char>::empty());
                }
            }
            if tn == 0 || t.get_char(0) == '#' || t.get_char(tn - 1) == ':' {
                // Blank, comment or label line: no code.
                proof {
                    if nl < s.len() {
                        assert(spec_generate(s, address) == spec_generate(
                            source@.skip(next as int),
                            address,
                        ));
                    } else {
                        assert(spec_generate(s, address) == GenOutcome::Program(
                            Seq::empty(),
                        ));
                        assert(spec_generate(source@.skip(next as int), address)
                            == GenOutcome::Program(Seq::empty()));
                    }
                }
            } else {
                match encode_instruction(t, address, &self.labels) {
                    Ok(word) => {
                        let ghost entry = (address, word);
                        proof {
                            let rest_outcome = if nl < s.len() {
                                spec_generate(
                                    source@.skip(next as int),
                                    ((address + 4) % 0x1_0000_0000) as u32,
                                )
                            } else {
                                GenOutcome::Program(Seq::empty())
                            };
                            assert(spec_generate(s, address) == spec_gen_prepend(
                                seq![entry],
                                rest_outcome,
                            ));
                            lemma_gen_prepend_push(program_before, entry, rest_outcome);
                            if nl >= s.len() {
                                assert(spec_generate(source@.skip(next as int), (address
                                    + 4) as u32) == GenOutcome::Program(Seq::empty()));
                            }
                        }
                        program.push((address, word));
                        proof {
                            assert(program@ =~= program_before.push(entry));
                        }
                        address = address + 4;
                    },
                    Err(e) => {
                        proof {
                            if nl < s.len() {
                                assert(spec_generate(s, address) == spec_gen_line(
                                    t@,
                                    address,
                                    spec_generate(
                                        source@.skip(next as int),
                                        ((address + 4) % 0x1_0000_0000) as u32,
                                    ),
                                ));
                            } else {
                                assert(spec_generate(s, address) == spec_gen_line(
                                    t@,
                                    address,
                                    GenOutcome::Program(Seq::empty()),
                                ));
                            }
                        }
                        return Err(e);
                    },
                }
            }
            pos = next;
        }
        proof {
            assert(source@.skip(n as int) =~= Seq::<char>::empty());
            assert(program@ + Seq::<(u32, u32)>::empty() =~= program@);
        }
        Ok(program)
    }
}

impl Default for Assembler {
    fn default() -> (a: Assembler)
        ensures
            a.labels.entries@ == Seq::<(String, u32)>::empty(),
    {
        Assembler::new()
    }
}

proof fn lemma_gen_prepend_push(p: Seq<(u32, u32)>, e: (u32, u32), o: GenOutcome)
    ensures
        spec_gen_prepend(p, spec_gen_prepend(seq![e], o)) == spec_gen_prepend(p.push(e), o),
{
    match o {
        GenOutcome::Program(v) => {
            assert(p + (seq![e] + v) =~= p.push(e) + v);
        },
        GenOutcome::EmptyLine => {},
        GenOutcome::Unknown(_) => {},
    }
}

/// The next line of `source` starting at character `pos`: its text with a
/// newline-terminated line losing one trailing carriage return, and the
/// position after the line ending.
fn next_line<'a>(source: &'a str, pos: usize) -> (r: (&'a str, usize))
    requires
        pos < source@.len(),
    ensures
        pos < r.1 <= source@.len(),
        ({
            let s = source@.skip(pos as int);
            let nl = spec_first_nl(s);
            if nl < s.len() {
                r.0@ == spec_strip_cr(s.take(nl as int)) && source@.skip(r.1 as int) == s.skip(nl + 1 as int)
            } else {
                r.0@ == s && r.1 == source@.len()
            }
        }),
{
    let n = source.unicode_len();
    let mut j: usize = pos;
    proof {
        assert(source@.skip(pos as int).skip(0) =~= source@.skip(pos as int));
    }
    while j < n && source.get_char(j) != '\n'
        invariant
            pos <= j <= n,
            n == source@.len(),
            spec_first_nl(source@.skip(pos as int)) == (j - pos) + spec_first_nl(
                source@.skip(j as int),
            ),
        decreases n - j,
    {
        proof {
            assert(source@.skip(j as int).drop_first() =~= source@.skip(j + 1));
        }
        j = j + 1;
    }
    proof {
        if j < n {
            assert(source@.skip(j as int)[0] == '\n');
        } else {
            assert(source@.skip(j as int) =~= Seq::<char>::empty());
        }
        assert(spec_first_nl(source@.skip(pos as int)) == j - pos);
    }
    if j < n {
        let line_end = if j > pos && source.get_char(j - 1) == '\r' {
            j - 1
        } else {
            j
        };
        let line = source.substring_char(pos, line_end);
        proof {
            let s = source@.skip(pos as int);
            assert(s.take(j - pos) =~= source@.subrange(pos as int, j as int));
            if j > pos && source@[j - 1] == '\r' {
                assert(s.take(j - pos).drop_last() =~= source@.subrange(pos as int, j - 1));
                assert(line@ =~= spec_strip_cr(s.take(j - pos)));
            } else {
                assert(line@ =~= spec_strip_cr(s.take(j - pos)));
            }
            assert(source@.skip(j + 1) =~= s.skip((j - pos) + 1));
        }
        (line, j + 1)
    } else {
        let line = source.substring_char(pos, n);
        proof {
            assert(source@.subrange(pos as int, n as int) =~= source@.skip(pos as int));
        }
        (line, n)
    }
}

} // verus!
