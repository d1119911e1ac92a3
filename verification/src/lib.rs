//! A two-pass assembler for an 8-bit CPU family.
//!
//! Source text is scanned into trimmed lines, classified and collected into
//! an address-tagged code table with a symbol table (pass 1), and finally
//! resolved and emitted as a flat byte image (pass 2). The crate also holds
//! the command-line configuration and the padding of a finished image to a
//! fixed size; reading and writing files is the caller's business.

use vstd::prelude::*;

pub mod ascii;
pub mod errors;
pub mod instructions;
pub mod pass1;
pub mod pass2;
pub mod scanner;
pub mod strings;

use crate::errors::Error;
use crate::errors::ErrorCode;
use crate::instructions::generate_instruction_set;
use crate::instructions::spec_instruction_table;
use crate::pass1::pass1;
use crate::pass1::spec_pass1;
use crate::pass2::pass2;
use crate::pass2::spec_pass2;
use crate::scanner::lines_view;
use crate::scanner::scanner;
use crate::scanner::spec_scanner;
use crate::strings::dec_u16;
use crate::strings::spec_dec_u16;
use crate::strings::str_eq;

verus! {

/// The assembler's run configuration: where the source comes from, where
/// the image goes, and how the image writer pads it. The padding options
/// exist because the assembler is generally used for producing a file to
/// burn to an EEPROM.
pub struct Config {
    pub source_file: String,
    pub out_file: String,
    /// Zero bytes to put before the image.
    pub padding: u16,
    /// Total size to pad the file out to, zero for none.
    pub size: u16,
}

/// Mathematical image of a configuration.
pub struct ConfigSpec {
    pub source_file: Seq<char>,
    pub out_file: Seq<char>,
    pub padding: u16,
    pub size: u16,
}

impl View for Config {
    type V = ConfigSpec;

    open spec fn view(&self) -> ConfigSpec {
        ConfigSpec {
            source_file: self.source_file@,
            out_file: self.out_file@,
            padding: self.padding,
            size: self.size,
        }
    }
}

/// The views of a list of argument strings.
pub open spec fn args_view(args: Seq<String>) -> Seq<Seq<char>> {
    args.map_values(|s: String| s@)
}

/// The option walk over the arguments between the program name and the
/// source file, processed from the last to the first: a `-o`, `-p` or `-s`
/// consumes the value seen just after it (that is, just before it in this
/// walk); a missing or unparsable value is a usage error; any other
/// argument is held as the next flag's value.
pub open spec fn spec_config_opts(
    mid: Seq<Seq<char>>,
    out_file: Seq<char>,
    padding: u16,
    size: u16,
    temp: Seq<char>,
) -> Result<(Seq<char>, u16, u16, Seq<char>), ErrorCode>
    decreases mid.len(),
{
    if mid.len() == 0 {
        Ok((out_file, padding, size, temp))
    } else {
        let val = mid.last();
        let rest = mid.drop_last();
        if val == "-o"@ {
            if temp.len() == 0 {
                Err(ErrorCode::Usage)
            } else {
                spec_config_opts(rest, temp, padding, size, Seq::empty())
            }
        } else if val == "-p"@ {
            if temp.len() == 0 {
                Err(ErrorCode::Usage)
            } else {
                match spec_dec_u16(temp) {
                    Some(p) => spec_config_opts(rest, out_file, p, size, Seq::empty()),
                    None => Err(ErrorCode::Usage),
                }
            }
        } else if val == "-s"@ {
            if temp.len() == 0 {
                Err(ErrorCode::Usage)
            } else {
                match spec_dec_u16(temp) {
                    Some(sz) => spec_config_opts(rest, out_file, padding, sz, Seq::empty()),
                    None => Err(ErrorCode::Usage),
                }
            }
        } else {
            spec_config_opts(rest, out_file, padding, size, val)
        }
    }
}

/// The configuration the argument list denotes: fewer than two arguments
/// is a usage error; the last argument is the source file; the rest are
/// walked as options; a value left without a flag is a usage error; a
/// source file equal to the output file is refused.
pub open spec fn spec_config_new(args: Seq<Seq<char>>) -> Result<ConfigSpec, ErrorCode> {
    if args.len() < 2 {
        Err(ErrorCode::Usage)
    } else {
        let source_file = args.last();
        let mid = args.subrange(1, args.len() - 1);
        match spec_config_opts(mid, "a.out"@, 0, 0, Seq::empty()) {
            Err(c) => Err(c),
            Ok(r) => if r.3.len() != 0 {
                Err(ErrorCode::Usage)
            } else if source_file == r.0 {
                Err(ErrorCode::OverwriteSource)
            } else {
                Ok(
                    ConfigSpec {
                        source_file,
                        out_file: r.0,
                        padding: r.1,
                        size: r.2,
                    },
                )
            },
        }
    }
}

impl Config {
    /// Reads the command line. The argument vector is left holding only
    /// the program name.
    pub fn new(args: &mut Vec<String>) -> (r: Result<Config, (ErrorCode, &'static str)>)
        ensures
            (match r {
                Ok(c) => spec_config_new(args_view(old(args)@)) == Ok::<ConfigSpec, ErrorCode>(c@),
                Err(e) => spec_config_new(args_view(old(args)@)) == Err::<ConfigSpec, ErrorCode>(
                    e.0,
                ),
            }),
            old(args)@.len() < 2 ==> final(args)@ == old(args)@,
            old(args)@.len() >= 2 ==> final(args)@ == old(args)@.take(1),
    {
        let ghost all = args_view(args@);
        if args.len() < 2 {
            return Err((ErrorCode::Usage, "Missing arguments"));
        }
        let n = args.len();
        // Take the arguments off, keeping only the program name behind.
        let mut rest: Vec<String> = Vec::new();
        let mut k: usize = 1;
        proof {
            assert(rest@ =~= args@.subrange(1, 1));
        }
        while k < n
            invariant
                1 <= k <= n,
                n == args@.len(),
                rest@ == args@.subrange(1, k as int),
            decreases n - k,
        {
            let a = args[k].clone();
            proof {
                assert(args@.subrange(1, k as int).push(args@[k as int]) =~= args@.subrange(
                    1,
                    k + 1,
                ));
            }
            rest.push(a);
            k += 1;
        }
        args.truncate(1);
        proof {
            assert(final(args)@ == old(args)@.take(1));
        }
        let source_file = rest.pop().unwrap();
        let ghost mid = args_view(rest@);
        proof {
            assert(mid =~= all.subrange(1, all.len() - 1));
            assert(source_file@ == all.last());
        }
        let mut out_file: String = "a.out".to_owned();
        let mut padding: u16 = 0;
        let mut size: u16 = 0;
        let mut temp_val: String = String::new();
        while rest.len() > 0
            invariant
                old(args)@.len() >= 2,
                args@ == old(args)@.take(1),
                all == args_view(old(args)@),
                all.len() >= 2,
                mid == all.subrange(1, all.len() - 1),
                source_file@ == all.last(),
                spec_config_opts(mid, "a.out"@, 0, 0, Seq::empty()) == spec_config_opts(
                    args_view(rest@),
                    out_file@,
                    padding,
                    size,
                    temp_val@,
                ),
            decreases rest@.len(),
        {
            let ghost rv = args_view(rest@);
            let val = rest.pop().unwrap();
            proof {
                assert(val@ == rv.last());
                assert(args_view(rest@) =~= rv.drop_last());
            }
            if str_eq(val.as_str(), "-o") {
                if temp_val.as_str().is_empty() {
                    return Err((ErrorCode::Usage, "No output filename provided"));
                }
                out_file = temp_val;
                temp_val = String::new();
            } else if str_eq(val.as_str(), "-p") {
                if temp_val.as_str().is_empty() {
                    return Err((ErrorCode::Usage, "No padding size provided provided"));
                }
                match dec_u16(temp_val.as_str()) {
                    Some(pad_val) => {
                        padding = pad_val;
                        temp_val = String::new();
                    },
                    None => {
                        return Err((ErrorCode::Usage, "Invalid padding size"));
                    },
                }
            } else if str_eq(val.as_str(), "-s") {
                if temp_val.as_str().is_empty() {
                    return Err((ErrorCode::Usage, "No file size provided provided"));
                }
                match dec_u16(temp_val.as_str()) {
                    Some(size_val) => {
                        size = size_val;
                        temp_val = String::new();
                    },
                    None => {
                        return Err((ErrorCode::Usage, "Invalid file size"));
                    },
                }
            } else {
                temp_val = val;
            }
        }
        proof {
            assert(args_view(rest@) =~= Seq::<Seq<char>>::empty());
        }
        // A value with no flag to claim it means the arguments are off.
        if !temp_val.as_str().is_empty() {
            return Err((ErrorCode::Usage, "Missing arguments"));
        }
        if source_file.eq(&out_file) {
            return Err(
                (ErrorCode::OverwriteSource, "You really don't want to overwrite your source file"),
            );
        }
        Ok(Config { source_file, out_file, padding, size })
    }
}

/// The byte image a source text assembles to, or the code of the error
/// that stops it: scan, pass 1, pass 2 against the reference opcode table.
pub open spec fn spec_run(src: Seq<u8>) -> Result<Seq<u8>, ErrorCode> {
    match spec_pass1(spec_scanner(src)) {
        Err(c) => Err(c),
        Ok(p) => spec_pass2(spec_instruction_table(), p),
    }
}

/// Assembly is deterministic: identical source texts assemble to identical
/// results, byte for byte. Together with `run`'s contract this makes
/// re-running on the same input idempotent.
pub proof fn lemma_run_deterministic(s1: Seq<u8>, s2: Seq<u8>)
    requires
        s1 == s2,
    ensures
        spec_run(s1) == spec_run(s2),
{
}

/// Assembles a source text to its byte image.
pub fn run(source: &[u8]) -> (r: Result<Vec<u8>, Error>)
    ensures
        (match r {
            Ok(out) => spec_run(source@) == Ok::<Seq<u8>, ErrorCode>(out@),
            Err(e) => spec_run(source@) == Err::<Seq<u8>, ErrorCode>(e.0),
        }),
{
    // Scan in and clean up the raw source.
    let scanned = scanner(source);
    proof {
        crate::scanner::lemma_scanner_lines_nonempty(
            crate::scanner::spec_split_lines(source@),
            1,
        );
        assert(forall|i: int|
            0 <= i < scanned@.len() ==> (#[trigger] scanned@[i]@) == lines_view(scanned@)[i]);
    }
    // The instruction set both passes consult.
    let instruction_set = generate_instruction_set();
    // Classify every line, building the symbol and code tables.
    let pass1_code = match pass1(&scanned) {
        Ok(pass1_code) => pass1_code,
        Err(err) => {
            return Err(err);
        },
    };
    // Resolve the labels and emit the image.
    let output = match pass2(instruction_set, pass1_code) {
        Ok(output) => output,
        Err(err) => {
            return Err(err);
        },
    };
    Ok(output)
}

/// The finished file image: the configured zero padding, then the machine
/// code, then zero fill up to the configured total size, if any is left.
pub open spec fn spec_pad_image(code: Seq<u8>, padding: u16, size: u16) -> Seq<u8> {
    let padded = Seq::new(padding as nat, |i: int| 0u8) + code;
    if padded.len() < size {
        padded + Seq::new((size - padded.len()) as nat, |i: int| 0u8)
    } else {
        padded
    }
}

/// Lays a machine-code image out as the output file holds it.
pub fn pad_image(code: &[u8], padding: u16, size: u16) -> (r: Vec<u8>)
    ensures
        r@ == spec_pad_image(code@, padding, size),
{
    let mut out: Vec<u8> = Vec::new();
    let mut i: usize = 0;
    let pad = padding as usize;
    while i < pad
        invariant
            0 <= i <= pad,
            out@ == Seq::new(i as nat, |k: int| 0u8),
        decreases pad - i,
    {
        out.push(0);
        proof {
            assert(Seq::new(i as nat, |k: int| 0u8).push(0u8) =~= Seq::new(
                (i + 1) as nat,
                |k: int| 0u8,
            ));
        }
        i += 1;
    }
    let n = code.len();
    let mut j: usize = 0;
    let ghost padseq = Seq::new(padding as nat, |k: int| 0u8);
    while j < n
        invariant
            0 <= j <= n,
            n == code@.len(),
            padseq == Seq::new(padding as nat, |k: int| 0u8),
            out@ == padseq + code@.take(j as int),
        decreases n - j,
    {
        out.push(code[j]);
        proof {
            assert((padseq + code@.take(j as int)).push(code@[j as int]) =~= padseq + code@.take(
                j + 1,
            ));
        }
        j += 1;
    }
    proof {
        assert(code@.take(n as int) =~= code@);
    }
    let ghost padded = padseq + code@;
    let mut total = out.len();
    let goal = size as usize;
    let ghost fill0 = out@;
    let ghost mut filled: int = 0;
    while total < goal
        invariant
            filled >= 0,
            total == out@.len(),
            out@.len() == fill0.len() + filled,
            fill0.len() < goal ==> filled <= goal - fill0.len(),
            fill0.len() >= goal ==> filled == 0,
            out@ == fill0 + Seq::new(filled as nat, |k: int| 0u8),
            goal == size,
        decreases goal - total,
    {
        out.push(0);
        proof {
            assert(Seq::new(filled as nat, |k: int| 0u8).push(0u8) =~= Seq::new(
                (filled + 1) as nat,
                |k: int| 0u8,
            ));
            assert((fill0 + Seq::new(filled as nat, |k: int| 0u8)).push(0u8) =~= fill0 + Seq::new(
                (filled + 1) as nat,
                |k: int| 0u8,
            ));
            filled = filled + 1;
        }
        total += 1;
    }
    proof {
        assert(fill0 == padded);
        if padded.len() < size {
            assert(filled == goal - fill0.len());
            assert(out@ =~= spec_pad_image(code@, padding, size));
        } else {
            assert(filled == 0);
            assert(Seq::new(0nat, |k: int| 0u8) =~= Seq::<u8>::empty());
            assert(out@ =~= padded);
        }
    }
    out
}

} // verus!
