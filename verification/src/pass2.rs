//! Pass 2: label resolution and byte-exact emission.
//!
//! Walks the finished program's code table in address order with a cursor
//! starting at zero. Each entry first realises any gap left by `.org`
//! relocation as zero bytes, then emits its content: an instruction's
//! opcode byte and operand bytes — a word low byte first — or a data blob
//! verbatim. A symbol name resolves through the symbol table and is emitted
//! as its address, low byte first, always two bytes wide; this matches the
//! widths the operand grammar reserves for the absolute and indirect label
//! shapes. A name with no symbol is the typed error `UnknownLabel`; a
//! (mnemonic, mode) pair outside the opcode table is `UnknownInstruction`.

use vstd::prelude::*;

use crate::errors::error;
use crate::errors::Error;
use crate::errors::ErrorCode;
use crate::instructions::spec_lookup;
use crate::instructions::InstructionEntry;
use crate::instructions::InstructionKey;
use crate::instructions::InstructionMap;
use crate::instructions::Value;
use crate::instructions::ValueSpec;
use crate::pass1::code_view;
use crate::pass1::spec_sym_lookup;
use crate::pass1::spec_wrap_add;
use crate::pass1::Content;
use crate::pass1::ContentSpec;
use crate::pass1::EntrySpec;
use crate::pass1::Label;
use crate::pass1::Program;
use crate::pass1::ProgramSpec;

verus! {

pub type MachineCode = Vec<u8>;

/// Low byte of a word, emitted first.
pub open spec fn spec_lo(v: u16) -> u8 {
    (v % 256) as u8
}

/// High byte of a word, emitted second.
pub open spec fn spec_hi(v: u16) -> u8 {
    (v / 256) as u8
}

/// The operand bytes of a value at emission time: a byte; a word, low byte
/// first; nothing; or a resolved symbol's address, low byte first, always
/// two bytes. An unresolved name is `UnknownLabel`.
pub open spec fn spec_value_bytes(symbols: Seq<(Seq<u8>, Label)>, v: ValueSpec) -> Result<
    Seq<u8>,
    ErrorCode,
> {
    match v {
        ValueSpec::U8(b) => Ok(seq![b]),
        ValueSpec::U16(w) => Ok(seq![spec_lo(w), spec_hi(w)]),
        ValueSpec::Null => Ok(Seq::empty()),
        ValueSpec::Name(name) => match spec_sym_lookup(symbols, name) {
            Some(l) => Ok(seq![spec_lo(l.address), spec_hi(l.address)]),
            None => Err(ErrorCode::UnknownLabel),
        },
    }
}

/// The bytes one entry emits, gap aside: an instruction's opcode and
/// operand bytes, or a data blob verbatim.
pub open spec fn spec_entry_bytes(
    table: Seq<InstructionEntry>,
    symbols: Seq<(Seq<u8>, Label)>,
    content: ContentSpec,
) -> Result<Seq<u8>, ErrorCode> {
    match content {
        ContentSpec::Data(d) => Ok(d),
        ContentSpec::Code(c) => match spec_lookup(
            table,
            InstructionKey { mnemonic: c.mnemonic, address_mode: c.address_mode },
        ) {
            None => Err(ErrorCode::UnknownInstruction),
            Some(op) => match spec_value_bytes(symbols, c.value) {
                Err(e) => Err(e),
                Ok(vb) => Ok(seq![op] + vb),
            },
        },
    }
}

/// The zero bytes that realise the gap between the cursor and an entry's
/// address; none when the entry does not lie ahead of the cursor.
pub open spec fn spec_gap(next: u16, address: u16) -> Seq<u8> {
    if address > next {
        Seq::new((address - next) as nat, |i: int| 0u8)
    } else {
        Seq::empty()
    }
}

/// The fold of pass 2 over the sorted entries: gap, then bytes, the cursor
/// moving to the entry's address plus its byte count, in 16-bit space.
pub open spec fn spec_pass2_entries(
    table: Seq<InstructionEntry>,
    symbols: Seq<(Seq<u8>, Label)>,
    code: Seq<EntrySpec>,
    next: u16,
) -> Result<Seq<u8>, ErrorCode>
    decreases code.len(),
{
    if code.len() == 0 {
        Ok(Seq::empty())
    } else {
        let e = code[0];
        match spec_entry_bytes(table, symbols, e.content) {
            Err(c) => Err(c),
            Ok(bs) => match spec_pass2_entries(
                table,
                symbols,
                code.drop_first(),
                spec_wrap_add(e.address, bs.len()),
            ) {
                Err(c) => Err(c),
                Ok(rest) => Ok(spec_gap(next, e.address) + bs + rest),
            },
        }
    }
}

/// The machine code of a finished program, from a cursor at zero.
pub open spec fn spec_pass2(table: Seq<InstructionEntry>, p: ProgramSpec) -> Result<
    Seq<u8>,
    ErrorCode,
> {
    spec_pass2_entries(table, p.symbols, p.code, 0)
}

/// A word value is emitted low byte first: the operand bytes of `U16(w)`
/// are its remainder and its quotient by 256, in that order.
pub proof fn lemma_word_byte_order(symbols: Seq<(Seq<u8>, Label)>, w: u16)
    ensures
        spec_value_bytes(symbols, ValueSpec::U16(w)) == Ok::<Seq<u8>, ErrorCode>(
            seq![(w % 256) as u8, (w / 256) as u8],
        ),
{
}

/// A resolved symbol is emitted as its recorded address, low byte first,
/// wherever in the source the definition stood: the operand bytes of a
/// name depend only on the finished symbol table.
pub proof fn lemma_label_resolution(symbols: Seq<(Seq<u8>, Label)>, name: Seq<u8>, l: Label)
    requires
        spec_sym_lookup(symbols, name) == Some(l),
    ensures
        spec_value_bytes(symbols, ValueSpec::Name(name)) == Ok::<Seq<u8>, ErrorCode>(
            seq![(l.address % 256) as u8, (l.address / 256) as u8],
        ),
{
}

/// The gap property: with the cursor at `next` and the first remaining
/// entry relocated to a greater address, emission puts exactly
/// `address - next` zero bytes first, and what follows is the same
/// emission started with the cursor already at that address.
pub proof fn lemma_gap_property(
    table: Seq<InstructionEntry>,
    symbols: Seq<(Seq<u8>, Label)>,
    code: Seq<EntrySpec>,
    next: u16,
)
    requires
        code.len() > 0,
        code[0].address > next,
    ensures
        spec_pass2_entries(table, symbols, code, code[0].address) is Ok ==> spec_pass2_entries(
            table,
            symbols,
            code,
            next,
        ) == Ok::<Seq<u8>, ErrorCode>(
            Seq::new((code[0].address - next) as nat, |i: int| 0u8) + spec_pass2_entries(
                table,
                symbols,
                code,
                code[0].address,
            )->Ok_0,
        ),
        spec_pass2_entries(table, symbols, code, code[0].address) is Err ==> spec_pass2_entries(
            table,
            symbols,
            code,
            next,
        ) == spec_pass2_entries(table, symbols, code, code[0].address),
{
    let e = code[0];
    match spec_entry_bytes(table, symbols, e.content) {
        Err(_) => {},
        Ok(bs) => {
            match spec_pass2_entries(
                table,
                symbols,
                code.drop_first(),
                spec_wrap_add(e.address, bs.len()),
            ) {
                Err(_) => {},
                Ok(rest) => {
                    assert(spec_gap(e.address, e.address) =~= Seq::<u8>::empty());
                    assert(spec_gap(e.address, e.address) + bs + rest =~= bs + rest);
                    assert(spec_gap(next, e.address) + bs + rest =~= Seq::new(
                        (e.address - next) as nat,
                        |i: int| 0u8,
                    ) + (bs + rest));
                },
            }
        },
    }
}

/// Emits the machine code of a finished program: every entry in address
/// order, gaps zero-filled, words and resolved labels low byte first.
#[verifier::rlimit(100)]
pub fn pass2(instruction_set: InstructionMap, program: Program) -> (r: Result<MachineCode, Error>)
    ensures
        (match r {
            Ok(mc) => spec_pass2(instruction_set@, program@) == Ok::<Seq<u8>, ErrorCode>(mc@),
            Err(e) => spec_pass2(instruction_set@, program@) == Err::<Seq<u8>, ErrorCode>(e.0),
        }),
{
    let ghost table = instruction_set@;
    let ghost symbols = program.symbol_table@;
    let ghost codeseq = code_view(program.code@);
    let mut output: MachineCode = Vec::new();
    let mut next_address: u16 = 0;
    let m = program.code.len();
    let mut i: usize = 0;
    proof {
        assert(codeseq.skip(0) =~= codeseq);
        assert(Seq::<u8>::empty() + spec_pass2_entries(table, symbols, codeseq, 0)->Ok_0
            =~= spec_pass2_entries(table, symbols, codeseq, 0)->Ok_0);
    }
    while i < m
        invariant
            0 <= i <= m,
            m == program.code@.len(),
            table == instruction_set@,
            symbols == program.symbol_table@,
            codeseq == code_view(program.code@),
            (match spec_pass2_entries(table, symbols, codeseq.skip(i as int), next_address) {
                Ok(rest) => spec_pass2_entries(table, symbols, codeseq, 0) == Ok::<
                    Seq<u8>,
                    ErrorCode,
                >(output@ + rest),
                Err(c) => spec_pass2_entries(table, symbols, codeseq, 0) == Err::<
                    Seq<u8>,
                    ErrorCode,
                >(c),
            }),
        decreases m - i,
    {
        let ghost tail = codeseq.skip(i as int);
        proof {
            assert(tail[0] == codeseq[i as int]);
            assert(codeseq[i as int] == program.code@[i as int]@);
            assert(tail.drop_first() =~= codeseq.skip(i + 1));
        }
        let entry = &program.code[i];
        let address = entry.address;
        let ghost old_next = next_address;
        let ghost out_start = output@;
        // Realise the gap left by relocation.
        if address > next_address {
            let gap = (address - next_address) as usize;
            let mut g: usize = 0;
            while g < gap
                invariant
                    0 <= g <= gap,
                    output@ == out_start + Seq::new(g as nat, |k: int| 0u8),
                decreases gap - g,
            {
                output.push(0);
                proof {
                    assert(Seq::new(g as nat, |k: int| 0u8).push(0u8) =~= Seq::new(
                        (g + 1) as nat,
                        |k: int| 0u8,
                    ));
                    assert((out_start + Seq::new(g as nat, |k: int| 0u8)).push(0u8) =~= out_start
                        + Seq::new((g + 1) as nat, |k: int| 0u8));
                }
                g += 1;
            }
        }
        proof {
            assert(output@ =~= out_start + spec_gap(next_address, address));
        }
        let ghost out_gap = output@;
        let mark = output.len();
        // Emit the entry's bytes.
        match &entry.content {
            Content::Code(code) => {
                let instruction_key = InstructionKey {
                    mnemonic: code.mnemonic,
                    address_mode: code.address_mode,
                };
                match instruction_set.get(&instruction_key) {
                    Some(machine_code) => {
                        output.push(machine_code);
                    },
                    None => {
                        return Err(
                            error(ErrorCode::UnknownInstruction, "Invalid instruction found".to_owned()),
                        );
                    },
                }
                match &code.value {
                    Value::U8(val) => {
                        output.push(*val);
                        proof {
                            let bs = spec_entry_bytes(table, symbols, tail[0].content)->Ok_0;
                            assert(output@ =~= out_gap + bs);
                        }
                    },
                    Value::U16(val) => {
                        let v = *val;
                        output.push((v % 256) as u8);
                        output.push((v / 256) as u8);
                        proof {
                            let bs = spec_entry_bytes(table, symbols, tail[0].content)->Ok_0;
                            assert(output@ =~= out_gap + bs);
                        }
                    },
                    Value::Null => {
                        proof {
                            let bs = spec_entry_bytes(table, symbols, tail[0].content)->Ok_0;
                            assert(seq![spec_lookup(table, instruction_key)->Some_0]
                                + Seq::<u8>::empty() =~= seq![
                                spec_lookup(table, instruction_key)->Some_0,
                            ]);
                            assert(output@ =~= out_gap + bs);
                        }
                    },
                    Value::String(label) => {
                        match program.symbol_table.get(label.as_slice()) {
                            Some(val) => {
                                let addr = val.address;
                                output.push((addr % 256) as u8);
                                output.push((addr / 256) as u8);
                                proof {
                                    let bs = spec_entry_bytes(
                                        table,
                                        symbols,
                                        tail[0].content,
                                    )->Ok_0;
                                    assert(output@ =~= out_gap + bs);
                                }
                            },
                            None => {
                                return Err(
                                    error(ErrorCode::UnknownLabel, "Unknown label".to_owned()),
                                );
                            },
                        }
                    },
                }
            },
            Content::Data(data) => {
                let dlen = data.len();
                let mut j: usize = 0;
                while j < dlen
                    invariant
                        0 <= j <= dlen,
                        dlen == data@.len(),
                        output@ == out_gap + data@.take(j as int),
                    decreases dlen - j,
                {
                    output.push(data[j]);
                    proof {
                        assert(data@.take(j as int).push(data@[j as int]) =~= data@.take(j + 1));
                        assert((out_gap + data@.take(j as int)).push(data@[j as int]) =~= out_gap
                            + data@.take(j + 1));
                    }
                    j += 1;
                }
                proof {
                    assert(data@.take(dlen as int) =~= data@);
                    let bs = spec_entry_bytes(table, symbols, tail[0].content)->Ok_0;
                    assert(output@ =~= out_gap + bs);
                }
            },
        }
        // Move the cursor past this entry.
        let emitted = output.len() - mark;
        proof {
            vstd::arithmetic::div_mod::lemma_small_mod(address as nat, 0x10000);
            vstd::arithmetic::div_mod::lemma_add_mod_noop(
                address as int,
                emitted as int,
                0x10000,
            );
        }
        let em16: u16 = (emitted % 0x10000) as u16;
        let next32: u32 = address as u32 + em16 as u32;
        next_address = (next32 % 0x10000) as u16;
        proof {
            let bs = spec_entry_bytes(table, symbols, tail[0].content)->Ok_0;
            assert(next_address == spec_wrap_add(tail[0].address, bs.len()));
            let rest0 = spec_pass2_entries(table, symbols, codeseq.skip(i + 1), next_address);
            if rest0 is Ok {
                assert(out_start + (spec_gap(old_next, address) + bs + rest0->Ok_0) =~= output@
                    + rest0->Ok_0);
            }
        }
        i += 1;
    }
    proof {
        assert(codeseq.skip(m as int) =~= Seq::<EntrySpec>::empty());
        assert(output@ + Seq::<u8>::empty() =~= output@);
    }
    Ok(output)
}

} // verus!
