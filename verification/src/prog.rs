//! Strongly-typed assembly programs.
//!
//! A program is a sequence of program words; each word is either a valid
//! instruction or a raw 4-byte datum (for embedded data). If a program
//! value exists, it is well-formed and needs no runtime validation.

use vstd::prelude::*;
use crate::instr::{Instr, InstrDecodingError, spec_encode, spec_decode};
use crate::bytes::spec_word_of;

verus! {

/// One 32-bit entry of a program stream: a decoded instruction or raw data.
#[derive(Copy, Clone, Debug, PartialEq, Eq)]
pub enum ProgramWord {
    Instr(Instr),
    Raw([u8; 4]),
}

/// The four bytes a program word encodes to.
pub open spec fn spec_pword_encode(w: ProgramWord) -> Seq<u8> {
    match w {
        ProgramWord::Instr(i) => spec_encode(i),
        ProgramWord::Raw(b) => b@,
    }
}

impl ProgramWord {
    /// Encode the program word to its four bytes; a raw word is its own bytes.
    pub fn encode(self) -> (b: [u8; 4])
        ensures b@ == spec_pword_encode(self),
    {
        match self {
            ProgramWord::Instr(i) => i.encode(),
            ProgramWord::Raw(b) => b,
        }
    }

    /// Encode the program word to one 32-bit word, big-endian.
    pub fn encode_word(self) -> (w: u32)
        ensures ({
            let b = spec_pword_encode(self);
            w == spec_word_of(b[0], b[1], b[2], b[3])
        }),
    {
        let b = self.encode();
        crate::bytes::word_of(b[0], b[1], b[2], b[3])
    }
}

/// What the 4-byte group at index `j` of a machine-code stream decodes to.
pub open spec fn spec_chunk_dec(b: Seq<u8>, j: int) -> Result<Instr, InstrDecodingError> {
    spec_decode(b[4 * j], b[4 * j + 1], b[4 * j + 2], b[4 * j + 3])
}

/// The flat byte encoding of a sequence of program words.
pub open spec fn spec_prog_bytes(s: Seq<ProgramWord>) -> Seq<u8> {
    Seq::new(4 * s.len(), |i: int| spec_pword_encode(s[i / 4])[i % 4])
}

/// Whether `p` is the word sequence that the machine code `b` decodes to when
/// raw data is admitted: each 4-byte group that decodes becomes its
/// instruction, every other group is kept as raw bytes.
pub open spec fn spec_decoded_words(b: Seq<u8>, p: Seq<ProgramWord>) -> bool {
    &&& p.len() == b.len() / 4
    &&& forall|j: int| #![trigger p[j]] 0 <= j < p.len() ==> match spec_chunk_dec(b, j) {
        Ok(i) => p[j] == ProgramWord::Instr(i),
        Err(_) => p[j] matches ProgramWord::Raw(bb) && bb@ == b.subrange(4 * j, 4 * j + 4),
    }
}

/// A strongly-typed assembly program.
#[derive(Default, Debug, Clone, PartialEq, Eq)]
pub struct Program(pub Vec<ProgramWord>);

impl Program {
    /// Create an empty program.
    pub fn new() -> (p: Self)
        ensures p.0@ == Seq::<ProgramWord>::empty(),
    {
        Program(Vec::new())
    }

    /// Create a program from a set of program words.
    pub fn from(pwords: Vec<ProgramWord>) -> (p: Self)
        ensures p.0 == pwords,
    {
        Program(pwords)
    }

    /// Create a program from a set of instructions.
    pub fn from_instr(instr: Vec<Instr>) -> (p: Self)
        ensures
            p.0@.len() == instr@.len(),
            forall|j: int| 0 <= j < instr@.len() ==> p.0@[j] == ProgramWord::Instr(instr@[j]),
    {
        let mut out: Vec<ProgramWord> = Vec::new();
        let mut i: usize = 0;
        while i < instr.len()
            invariant
                i <= instr@.len(),
                out@.len() == i,
                forall|j: int| 0 <= j < i ==> out@[j] == ProgramWord::Instr(instr@[j]),
            decreases instr@.len() - i,
        {
            out.push(ProgramWord::Instr(instr[i]));
            i = i + 1;
        }
        Program(out)
    }

    /// Get the number of words in the program.
    pub fn size(&self) -> (n: usize)
        ensures n == self.0@.len(),
    {
        self.0.len()
    }

    /// The program's words, in order.
    pub fn prog_words(&self) -> (w: &Vec<ProgramWord>)
        ensures w@ == self.0@,
    {
        &self.0
    }

    /// Prepend an instruction at the beginning of the program.
    pub fn prepend(&mut self, instr: ProgramWord)
        ensures final(self).0@ == seq![instr] + old(self).0@,
    {
        self.0.insert(0, instr);
        proof {
            assert(final(self).0@ =~= seq![instr] + old(self).0@);
        }
    }

    /// Prepend a set of instructions at the beginning of the program.
    pub fn prepend_all(&mut self, instr: &Vec<ProgramWord>)
        ensures final(self).0@ == instr@ + old(self).0@,
    {
        let mut out: Vec<ProgramWord> = Vec::new();
        let mut i: usize = 0;
        while i < instr.len()
            invariant
                i <= instr@.len(),
                out@ == instr@.subrange(0, i as int),
            decreases instr@.len() - i,
        {
            out.push(instr[i]);
            proof {
                assert(out@ =~= instr@.subrange(0, i + 1));
            }
            i = i + 1;
        }
        proof {
            assert(out@ =~= instr@);
        }
        out.append(&mut self.0);
        self.0 = out;
    }

    /// Append an instruction at the end of the program.
    pub fn append(&mut self, instr: ProgramWord)
        ensures final(self).0@ == old(self).0@.push(instr),
    {
        self.0.push(instr);
    }

    /// Append a set of instructions at the end of the program.
    pub fn append_all(&mut self, instr: &Vec<ProgramWord>)
        ensures final(self).0@ == old(self).0@ + instr@,
    {
        let mut i: usize = 0;
        while i < instr.len()
            invariant
                i <= instr@.len(),
                self.0@ == old(self).0@ + instr@.subrange(0, i as int),
            decreases instr@.len() - i,
        {
            self.0.push(instr[i]);
            proof {
                assert(self.0@ =~= old(self).0@ + instr@.subrange(0, i + 1));
            }
            i = i + 1;
        }
        proof {
            assert(self.0@ =~= old(self).0@ + instr@);
        }
    }

    /// Disassemble machine code into a program. The stream must be a multiple
    /// of 4 bytes; each 4-byte group that is no valid instruction is kept as
    /// raw data, or, when raw data is forbidden, reported with its index as
    /// the first decoding error.
    pub fn decode(prog: &Vec<u8>, forbid_raw: bool) -> (r: Result<Self, (usize, InstrDecodingError)>)
        ensures
            prog@.len() % 4 != 0 ==> r == Err::<Program, (usize, InstrDecodingError)>(
                (0usize, InstrDecodingError::SourceNotMultipleOf4Bytes),
            ),
            prog@.len() % 4 == 0 ==> match r {
                Ok(p) => {
                    &&& spec_decoded_words(prog@, p.0@)
                    &&& forbid_raw ==> forall|j: int| 0 <= j < p.0@.len()
                        ==> spec_chunk_dec(prog@, j) is Ok
                },
                Err(ie) => {
                    &&& forbid_raw
                    &&& 0 <= ie.0 < prog@.len() / 4
                    &&& spec_chunk_dec(prog@, ie.0 as int) == Err::<Instr, InstrDecodingError>(ie.1)
                    &&& forall|k: int| 0 <= k < ie.0 ==> spec_chunk_dec(prog@, k) is Ok
                },
            },
    {
        if prog.len() % 4 != 0 {
            return Err((0, InstrDecodingError::SourceNotMultipleOf4Bytes));
        }
        let n = prog.len() / 4;
        let mut out: Vec<ProgramWord> = Vec::new();
        let mut i: usize = 0;
        while i < n
            invariant
                prog@.len() % 4 == 0,
                prog@.len() <= usize::MAX,
                n == prog@.len() / 4,
                i <= n,
                out@.len() == i,
                forall|j: int| #![trigger out@[j]] 0 <= j < i ==> match spec_chunk_dec(prog@, j) {
                    Ok(ins) => out@[j] == ProgramWord::Instr(ins),
                    Err(_) => out@[j] matches ProgramWord::Raw(bb)
                        && bb@ == prog@.subrange(4 * j, 4 * j + 4),
                },
                forbid_raw ==> forall|j: int| 0 <= j < i ==> spec_chunk_dec(prog@, j) is Ok,
            decreases n - i,
        {
            let bytes: [u8; 4] = [prog[4 * i], prog[4 * i + 1], prog[4 * i + 2], prog[4 * i + 3]];
            let pword = match Instr::decode(bytes) {
                Ok(ins) => ProgramWord::Instr(ins),
                Err(err) => {
                    if forbid_raw {
                        return Err((i, err));
                    }
                    proof {
                        assert(bytes@ =~= prog@.subrange(4 * i, 4 * i + 4));
                    }
                    ProgramWord::Raw(bytes)
                },
            };
            out.push(pword);
            i = i + 1;
        }
        Ok(Program(out))
    }

    /// Encode the program to folded bytes (one 4-byte group per word).
    pub fn to_folded_bytes(&self) -> (r: Vec<[u8; 4]>)
        ensures
            r@.len() == self.0@.len(),
            forall|j: int| 0 <= j < r@.len() ==> r@[j]@ == spec_pword_encode(self.0@[j]),
    {
        let mut out: Vec<[u8; 4]> = Vec::new();
        let mut i: usize = 0;
        while i < self.0.len()
            invariant
                i <= self.0@.len(),
                out@.len() == i,
                forall|j: int| 0 <= j < i ==> out@[j]@ == spec_pword_encode(self.0@[j]),
            decreases self.0@.len() - i,
        {
            out.push(self.0[i].encode());
            i = i + 1;
        }
        out
    }

    /// Encode the program as a flat list of bytes.
    pub fn encode(&self) -> (r: Vec<u8>)
        ensures r@ == spec_prog_bytes(self.0@),
    {
        let mut out: Vec<u8> = Vec::new();
        let mut i: usize = 0;
        while i < self.0.len()
            invariant
                i <= self.0@.len(),
                out@.len() == 4 * i,
                forall|j: int| 0 <= j < 4 * i ==> out@[j] == spec_prog_bytes(self.0@)[j],
            decreases self.0@.len() - i,
        {
            let b = self.0[i].encode();
            out.push(b[0]);
            out.push(b[1]);
            out.push(b[2]);
            out.push(b[3]);
            i = i + 1;
        }
        proof {
            assert(out@ =~= spec_prog_bytes(self.0@));
        }
        out
    }

    /// Encode the program as a list of 32-bit words.
    pub fn encode_words(&self) -> (r: Vec<u32>)
        ensures
            r@.len() == self.0@.len(),
            forall|j: int| 0 <= j < r@.len() ==> r@[j] == ({
                let b = spec_pword_encode(self.0@[j]);
                spec_word_of(b[0], b[1], b[2], b[3])
            }),
    {
        let mut out: Vec<u32> = Vec::new();
        let mut i: usize = 0;
        while i < self.0.len()
            invariant
                i <= self.0@.len(),
                out@.len() == i,
                forall|j: int| 0 <= j < i ==> out@[j] == ({
                    let b = spec_pword_encode(self.0@[j]);
                    spec_word_of(b[0], b[1], b[2], b[3])
                }),
            decreases self.0@.len() - i,
        {
            out.push(self.0[i].encode_word());
            i = i + 1;
        }
        out
    }
}

/// Round-trip law: any machine code that disassembles successfully (raw data
/// admitted or not) is re-encoded bit-identically by the program it yields.
pub proof fn lemma_program_reencode(b: Seq<u8>, p: Seq<ProgramWord>)
    requires
        b.len() % 4 == 0,
        spec_decoded_words(b, p),
    ensures
        spec_prog_bytes(p) == b,
{
    assert forall|i: int| 0 <= i < 4 * p.len() implies spec_prog_bytes(p)[i] == b[i] by {
        let j = i / 4;
        crate::instr::lemma_encode_decode(b[4 * j], b[4 * j + 1], b[4 * j + 2], b[4 * j + 3]);
        assert(4 * j <= i < 4 * j + 4);
        match spec_chunk_dec(b, j) {
            Ok(ins) => {
                assert(p[j] == ProgramWord::Instr(ins));
                assert(spec_pword_encode(p[j])[i % 4] == b[4 * j + i % 4]);
            },
            Err(_) => {
                assert(spec_pword_encode(p[j])[i % 4] == b.subrange(4 * j, 4 * j + 4)[i % 4]);
            },
        }
        assert(4 * j + i % 4 == i);
    }
    assert(spec_prog_bytes(p) =~= b);
}

} // verus!
