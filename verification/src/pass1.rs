//! Pass 1: symbol resolution.
//!
//! Consumes the scanner's line table, classifies each line as label,
//! directive or instruction, tracks the location counter, and produces an
//! address-tagged code table together with a completed symbol table. The
//! code table is sorted by address at the end, which is what lets `.org`
//! relocate later code without reordering source lines.
//!
//! The location counter lives in a 16-bit address space and wraps at its
//! boundary.

use vstd::prelude::*;
use vstd::slice::slice_subrange;

use crate::ascii::ascii_to_bytes;
use crate::ascii::spec_ascii_bytes;
use crate::errors::error;
use crate::errors::Error;
use crate::errors::ErrorCode;
use crate::instructions::address_mode_length;
use crate::instructions::spec_address_mode_length;
use crate::instructions::spec_mnemonic;
use crate::instructions::str_to_mnemonic;
use crate::instructions::AddressMode;
use crate::instructions::Mnemonic;
use crate::instructions::Value;
use crate::instructions::ValueSpec;
use crate::scanner::spec_trim;
use crate::scanner::trim_bounds;
use crate::scanner::SourceTable;
use crate::strings::bytes_eq;
use crate::strings::find_byte;
use crate::strings::lemma_before_idx;
use crate::strings::lemma_strip_leading_idx;
use crate::strings::lemma_strip_trailing_idx;
use crate::strings::skip_leading;
use crate::strings::skip_trailing;
use crate::strings::spec_before;
use crate::strings::spec_split;
use crate::strings::spec_str_to_u16;
use crate::strings::spec_str_to_u8;
use crate::strings::spec_strip_leading;
use crate::strings::spec_strip_trailing;
use crate::strings::spec_to_lower;
use crate::strings::split_bytes;
use crate::strings::str_to_u16;
use crate::strings::str_to_u8;
use crate::strings::sub_vec;
use crate::strings::to_lower;

verus! {

/// A resolved symbol: its address (or `.equ` value) and its defining line.
#[derive(PartialEq, Eq, Structural, Copy, Clone, Debug)]
pub struct Label {
    pub address: u16,
    pub line: u16,
}

/// The symbol table: names resolved by pass 1, read-only during pass 2.
/// Its well-formedness is that no name is recorded twice; pass 1 checks
/// before every insertion.
pub struct SymbolTable {
    pub entries: Vec<(Vec<u8>, Label)>,
}

impl View for SymbolTable {
    type V = Seq<(Seq<u8>, Label)>;

    open spec fn view(&self) -> Seq<(Seq<u8>, Label)> {
        self.entries@.map_values(|e: (Vec<u8>, Label)| (e.0@, e.1))
    }
}

/// First-match lookup of a name among recorded symbols.
pub open spec fn spec_sym_lookup(t: Seq<(Seq<u8>, Label)>, name: Seq<u8>) -> Option<Label>
    decreases t.len(),
{
    if t.len() == 0 {
        None
    } else if t[0].0 == name {
        Some(t[0].1)
    } else {
        spec_sym_lookup(t.drop_first(), name)
    }
}

proof fn lemma_sym_lookup_skip(t: Seq<(Seq<u8>, Label)>, name: Seq<u8>, i: int)
    requires
        0 <= i <= t.len(),
        forall|k: int| 0 <= k < i ==> t[k].0 != name,
    ensures
        spec_sym_lookup(t, name) == spec_sym_lookup(t.skip(i), name),
    decreases i,
{
    if i == 0 {
        assert(t.skip(0) =~= t);
    } else {
        lemma_sym_lookup_skip(t.drop_first(), name, i - 1);
        assert(t.drop_first().skip(i - 1) =~= t.skip(i));
    }
}

impl SymbolTable {
    /// An empty table.
    pub fn new() -> (r: SymbolTable)
        ensures
            r@ == Seq::<(Seq<u8>, Label)>::empty(),
    {
        let r = SymbolTable { entries: Vec::new() };
        proof {
            assert(r@ =~= Seq::<(Seq<u8>, Label)>::empty());
        }
        r
    }

    /// Looks a name up.
    pub fn get(&self, name: &[u8]) -> (r: Option<Label>)
        ensures
            r == spec_sym_lookup(self@, name@),
    {
        let n = self.entries.len();
        let mut i: usize = 0;
        while i < n
            invariant
                0 <= i <= n,
                n == self.entries@.len(),
                forall|k: int| 0 <= k < i ==> #[trigger] self@[k].0 != name@,
            decreases n - i,
        {
            proof {
                assert(self@[i as int] == (self.entries@[i as int].0@, self.entries@[i as int].1));
            }
            let e = &self.entries[i];
            if bytes_eq(e.0.as_slice(), name) {
                proof {
                    lemma_sym_lookup_skip(self@, name@, i as int);
                    assert(self@.skip(i as int)[0] == self@[i as int]);
                }
                return Some(e.1);
            }
            i += 1;
        }
        proof {
            lemma_sym_lookup_skip(self@, name@, n as int);
            assert(self@.skip(n as int) =~= Seq::<(Seq<u8>, Label)>::empty());
        }
        None
    }

    /// Whether a name is already recorded.
    pub fn contains_key(&self, name: &[u8]) -> (r: bool)
        ensures
            r == (spec_sym_lookup(self@, name@) is Some),
    {
        self.get(name).is_some()
    }

    /// Records one more symbol.
    pub fn insert(&mut self, name: Vec<u8>, label: Label)
        ensures
            final(self)@ == old(self)@.push((name@, label)),
    {
        let ghost before = self@;
        let ghost namev = name@;
        self.entries.push((name, label));
        proof {
            assert(self@ =~= before.push((namev, label)));
        }
    }
}

/// One recorded instruction, before label resolution.
#[derive(PartialEq, Eq, Debug)]
pub struct Code {
    pub mnemonic: Mnemonic,
    pub address_mode: AddressMode,
    pub value: Value,
}

/// Mathematical image of a recorded instruction.
pub struct CodeSpec {
    pub mnemonic: Mnemonic,
    pub address_mode: AddressMode,
    pub value: ValueSpec,
}

impl View for Code {
    type V = CodeSpec;

    open spec fn view(&self) -> CodeSpec {
        CodeSpec {
            mnemonic: self.mnemonic,
            address_mode: self.address_mode,
            value: self.value@,
        }
    }
}

/// What one code-table entry holds: an instruction or a raw data blob.
#[derive(PartialEq, Eq, Debug)]
pub enum Content {
    Code(Code),
    Data(Vec<u8>),
}

/// Mathematical image of an entry's content.
pub enum ContentSpec {
    Code(CodeSpec),
    Data(Seq<u8>),
}

impl View for Content {
    type V = ContentSpec;

    open spec fn view(&self) -> ContentSpec {
        match self {
            Content::Code(c) => ContentSpec::Code(c@),
            Content::Data(d) => ContentSpec::Data(d@),
        }
    }
}

/// One code-table row: the location-counter snapshot at the moment the
/// entry was produced, and its content.
#[derive(PartialEq, Eq, Debug)]
pub struct CodeTableEntry {
    pub address: u16,
    pub content: Content,
}

/// Mathematical image of a code-table row.
pub struct EntrySpec {
    pub address: u16,
    pub content: ContentSpec,
}

impl View for CodeTableEntry {
    type V = EntrySpec;

    open spec fn view(&self) -> EntrySpec {
        EntrySpec { address: self.address, content: self.content@ }
    }
}

pub type CodeTable = Vec<CodeTableEntry>;

/// The code table's view.
pub open spec fn code_view(t: Seq<CodeTableEntry>) -> Seq<EntrySpec> {
    t.map_values(|e: CodeTableEntry| e@)
}

/// The state pass 1 accumulates: symbols, code, and the location counter.
pub struct Program {
    pub symbol_table: SymbolTable,
    pub code: CodeTable,
    pub counter: u16,
}

/// Mathematical image of a program under construction.
pub struct ProgramSpec {
    pub symbols: Seq<(Seq<u8>, Label)>,
    pub code: Seq<EntrySpec>,
    pub counter: u16,
}

impl View for Program {
    type V = ProgramSpec;

    open spec fn view(&self) -> ProgramSpec {
        ProgramSpec {
            symbols: self.symbol_table@,
            code: code_view(self.code@),
            counter: self.counter,
        }
    }
}

/// The state pass 1 starts from: nothing recorded, counter at the default
/// base address.
pub open spec fn spec_initial_program() -> ProgramSpec {
    ProgramSpec { symbols: Seq::empty(), code: Seq::empty(), counter: 0x1000 }
}

impl Program {
    /// A fresh program at the default base address.
    pub fn new() -> (r: Program)
        ensures
            r@ == spec_initial_program(),
    {
        let r = Program { symbol_table: SymbolTable::new(), code: Vec::new(), counter: 0x1000 };
        proof {
            assert(code_view(r.code@) =~= Seq::<EntrySpec>::empty());
        }
        r
    }
}

impl Default for Program {
    fn default() -> (r: Program)
        ensures
            r@ == spec_initial_program(),
    {
        Program::new()
    }
}

/// The location counter's arithmetic: addition in a 16-bit address space.
pub open spec fn spec_wrap_add(a: u16, n: nat) -> u16 {
    (((a + n) % 0x10000) as u16)
}

/// Stable insertion of an entry into an address-sorted table: the new entry
/// goes after every entry whose address is not greater.
pub open spec fn spec_insert_sorted(s: Seq<EntrySpec>, e: EntrySpec) -> Seq<EntrySpec>
    decreases s.len(),
{
    if s.len() == 0 {
        seq![e]
    } else if s.last().address <= e.address {
        s.push(e)
    } else {
        spec_insert_sorted(s.drop_last(), e).push(s.last())
    }
}

/// Stable sort of the code table by address: entries are inserted in
/// emission order, each after the entries that do not exceed it.
pub open spec fn spec_sort_code(s: Seq<EntrySpec>) -> Seq<EntrySpec>
    decreases s.len(),
{
    if s.len() == 0 {
        Seq::empty()
    } else {
        spec_insert_sorted(spec_sort_code(s.drop_last()), s.last())
    }
}

/// Non-decreasing addresses.
pub open spec fn spec_sorted(s: Seq<EntrySpec>) -> bool {
    forall|i: int, j: int| 0 <= i < j < s.len() ==> #[trigger] s[i].address <= #[trigger] s[j].address
}

proof fn lemma_insert_sorted_at(s: Seq<EntrySpec>, e: EntrySpec, pos: int)
    requires
        spec_sorted(s),
        0 <= pos <= s.len(),
        pos > 0 ==> s[pos - 1].address <= e.address,
        pos < s.len() ==> s[pos as int].address > e.address,
    ensures
        spec_insert_sorted(s, e) == s.take(pos) + seq![e] + s.skip(pos),
        spec_sorted(spec_insert_sorted(s, e)),
    decreases s.len(),
{
    if s.len() == 0 {
        assert(s.take(0) =~= Seq::<EntrySpec>::empty());
        assert(s.skip(0) =~= Seq::<EntrySpec>::empty());
        assert(s.take(pos) + seq![e] + s.skip(pos) =~= seq![e]);
    } else if s.last().address <= e.address {
        assert(pos == s.len()) by {
            if pos < s.len() {
                assert(s[pos as int].address <= s[s.len() - 1].address);
            }
        }
        assert(s.take(pos) =~= s);
        assert(s.skip(pos) =~= Seq::<EntrySpec>::empty());
        assert(s.take(pos) + seq![e] + s.skip(pos) =~= s.push(e));
        assert(spec_sorted(s.push(e)));
    } else {
        assert(pos < s.len()) by {
            if pos == s.len() {
                assert(s[pos - 1] == s.last());
            }
        }
        let d = s.drop_last();
        assert(spec_sorted(d));
        lemma_insert_sorted_at(d, e, pos);
        assert(d.take(pos) =~= s.take(pos));
        assert((d.take(pos) + seq![e] + d.skip(pos)).push(s.last()) =~= s.take(pos) + seq![e]
            + s.skip(pos));
        let r = spec_insert_sorted(s, e);
        assert(r == s.take(pos) + seq![e] + s.skip(pos));
        assert forall|i: int, j: int| 0 <= i < j < r.len() implies #[trigger] r[i].address
            <= #[trigger] r[j].address by {
            if i < pos {
                assert(r[i] == s[i]);
            } else if i == pos {
                assert(r[i] == e);
            } else {
                assert(r[i] == s[i - 1]);
            }
            if j < pos {
                assert(r[j] == s[j]);
            } else if j == pos {
                assert(r[j] == e);
            } else {
                assert(r[j] == s[j - 1]);
            }
        }
    }
}

/// Whitespace as instruction-line tokenising sees it.
pub open spec fn spec_is_token_ws(b: u8) -> bool {
    b == 0x20 || b == 0x09 || b == 0x0a || b == 0x0c || b == 0x0d
}

/// The text with leading token whitespace removed.
pub open spec fn spec_skip_token_ws(s: Seq<u8>) -> Seq<u8>
    decreases s.len(),
{
    if s.len() > 0 && spec_is_token_ws(s[0]) {
        spec_skip_token_ws(s.drop_first())
    } else {
        s
    }
}

/// The leading token of a text: its prefix up to the first whitespace.
pub open spec fn spec_token(s: Seq<u8>) -> Seq<u8>
    decreases s.len(),
{
    if s.len() > 0 && !spec_is_token_ws(s[0]) {
        seq![s[0]] + spec_token(s.drop_first())
    } else {
        Seq::empty()
    }
}

proof fn lemma_skip_token_ws_idx(s: Seq<u8>, a: int)
    requires
        0 <= a <= s.len(),
        forall|k: int| 0 <= k < a ==> spec_is_token_ws(s[k]),
        a < s.len() ==> !spec_is_token_ws(s[a]),
    ensures
        spec_skip_token_ws(s) == s.skip(a),
    decreases a,
{
    if a == 0 {
        assert(s.skip(0) =~= s);
    } else {
        lemma_skip_token_ws_idx(s.drop_first(), a - 1);
        assert(s.drop_first().skip(a - 1) =~= s.skip(a));
    }
}

proof fn lemma_token_idx(s: Seq<u8>, e: int)
    requires
        0 <= e <= s.len(),
        forall|k: int| 0 <= k < e ==> !spec_is_token_ws(s[k]),
        e < s.len() ==> spec_is_token_ws(s[e]),
    ensures
        spec_token(s) == s.take(e),
    decreases e,
{
    if e == 0 {
        if s.len() == 0 {
            assert(s.take(0) =~= Seq::<u8>::empty());
        } else {
            assert(s.take(0) =~= Seq::<u8>::empty());
        }
    } else {
        lemma_token_idx(s.drop_first(), e - 1);
        assert(seq![s[0]] + s.drop_first().take(e - 1) =~= s.take(e));
    }
}

fn is_token_ws(b: u8) -> (r: bool)
    ensures
        r == spec_is_token_ws(b),
{
    b == 0x20 || b == 0x09 || b == 0x0a || b == 0x0c || b == 0x0d
}

/// First position in `s[lo..hi]` that is not token whitespace, or `hi`.
fn skip_token_ws(s: &[u8], lo: usize, hi: usize) -> (r: usize)
    requires
        lo <= hi <= s@.len(),
    ensures
        lo <= r <= hi,
        forall|k: int| lo <= k < r ==> spec_is_token_ws(s@[k]),
        r < hi ==> !spec_is_token_ws(s@[r as int]),
{
    let mut p = lo;
    while p < hi && is_token_ws(s[p])
        invariant
            lo <= p <= hi <= s@.len(),
            forall|k: int| lo <= k < p ==> spec_is_token_ws(s@[k]),
        decreases hi - p,
    {
        p += 1;
    }
    p
}

/// First token-whitespace position in `s[lo..hi]`, or `hi`.
fn token_end(s: &[u8], lo: usize, hi: usize) -> (r: usize)
    requires
        lo <= hi <= s@.len(),
    ensures
        lo <= r <= hi,
        forall|k: int| lo <= k < r ==> !spec_is_token_ws(s@[k]),
        r < hi ==> spec_is_token_ws(s@[r as int]),
{
    let mut p = lo;
    while p < hi && !is_token_ws(s[p])
        invariant
            lo <= p <= hi <= s@.len(),
            forall|k: int| lo <= k < p ==> !spec_is_token_ws(s@[k]),
        decreases hi - p,
    {
        p += 1;
    }
    p
}

/// A lowercase hexadecimal digit, as the operand grammar admits.
pub open spec fn spec_is_hex(b: u8) -> bool {
    (0x30 <= b && b <= 0x39) || (0x61 <= b && b <= 0x66)
}

/// Value of one lowercase hexadecimal digit.
pub open spec fn spec_nib(b: u8) -> u8
    recommends
        spec_is_hex(b),
{
    if 0x30 <= b && b <= 0x39 {
        (b - 0x30) as u8
    } else {
        ((b - 0x61) + 10) as u8
    }
}

/// Value of a two-digit hexadecimal literal.
pub open spec fn spec_hex2(a: u8, b: u8) -> u8
    recommends
        spec_is_hex(a),
        spec_is_hex(b),
{
    (spec_nib(a) * 16 + spec_nib(b)) as u8
}

/// Value of a four-digit hexadecimal literal.
pub open spec fn spec_hex4(a: u8, b: u8, c: u8, d: u8) -> u16
    recommends
        spec_is_hex(a),
        spec_is_hex(b),
        spec_is_hex(c),
        spec_is_hex(d),
{
    (spec_nib(a) * 4096 + spec_nib(b) * 256 + spec_nib(c) * 16 + spec_nib(d)) as u16
}

/// A byte that may open a symbol name: a lowercase letter or underscore.
pub open spec fn spec_is_label_start(b: u8) -> bool {
    b == 0x5f || (0x61 <= b && b <= 0x7a)
}

/// A byte that may continue a symbol name.
pub open spec fn spec_is_label_char(b: u8) -> bool {
    spec_is_label_start(b) || (0x30 <= b && b <= 0x39)
}

/// Text in the shape of a symbol name.
pub open spec fn spec_is_label_text(s: Seq<u8>) -> bool {
    s.len() > 0 && spec_is_label_start(s[0]) && (forall|i: int|
        0 < i < s.len() ==> spec_is_label_char(s[i]))
}

/// Classification of an operand token, first shape wins: numeric zeropage,
/// immediate, absolute and indirect forms, then the same shapes with a
/// symbol name in place of the literal, then the unclassified fallback
/// carrying the raw text.
pub open spec fn spec_operand(op: Seq<u8>) -> (AddressMode, ValueSpec) {
    let n = op.len();
    if n == 0 {
        (AddressMode::Implied, ValueSpec::Null)
    } else if n == 3 && op[0] == 0x24 && spec_is_hex(op[1]) && spec_is_hex(op[2]) {
        // $hh
        (AddressMode::Zeropage, ValueSpec::U8(spec_hex2(op[1], op[2])))
    } else if n == 5 && op[0] == 0x24 && spec_is_hex(op[1]) && spec_is_hex(op[2]) && op[3] == 0x2c
        && op[4] == 0x78 {
        // $hh,x
        (AddressMode::ZeropageX, ValueSpec::U8(spec_hex2(op[1], op[2])))
    } else if n == 5 && op[0] == 0x24 && spec_is_hex(op[1]) && spec_is_hex(op[2]) && op[3] == 0x2c
        && op[4] == 0x79 {
        // $hh,y
        (AddressMode::ZeropageY, ValueSpec::U8(spec_hex2(op[1], op[2])))
    } else if n == 4 && op[0] == 0x23 && op[1] == 0x24 && spec_is_hex(op[2]) && spec_is_hex(op[3]) {
        // #$hh
        (AddressMode::Immediate, ValueSpec::U8(spec_hex2(op[2], op[3])))
    } else if n == 5 && op[0] == 0x24 && spec_is_hex(op[1]) && spec_is_hex(op[2]) && spec_is_hex(
        op[3],
    ) && spec_is_hex(op[4]) {
        // $hhhh
        (AddressMode::Absolute, ValueSpec::U16(spec_hex4(op[1], op[2], op[3], op[4])))
    } else if n == 7 && op[0] == 0x24 && spec_is_hex(op[1]) && spec_is_hex(op[2]) && spec_is_hex(
        op[3],
    ) && spec_is_hex(op[4]) && op[5] == 0x2c && op[6] == 0x78 {
        // $hhhh,x
        (AddressMode::AbsoluteX, ValueSpec::U16(spec_hex4(op[1], op[2], op[3], op[4])))
    } else if n == 7 && op[0] == 0x24 && spec_is_hex(op[1]) && spec_is_hex(op[2]) && spec_is_hex(
        op[3],
    ) && spec_is_hex(op[4]) && op[5] == 0x2c && op[6] == 0x79 {
        // $hhhh,y
        (AddressMode::AbsoluteY, ValueSpec::U16(spec_hex4(op[1], op[2], op[3], op[4])))
    } else if n == 7 && op[0] == 0x28 && op[1] == 0x24 && spec_is_hex(op[2]) && spec_is_hex(op[3])
        && spec_is_hex(op[4]) && spec_is_hex(op[5]) && op[6] == 0x29 {
        // ($hhhh)
        (AddressMode::Indirect, ValueSpec::U16(spec_hex4(op[2], op[3], op[4], op[5])))
    } else if n == 7 && op[0] == 0x28 && op[1] == 0x24 && spec_is_hex(op[2]) && spec_is_hex(op[3])
        && op[4] == 0x2c && op[5] == 0x78 && op[6] == 0x29 {
        // ($hh,x)
        (AddressMode::IndirectX, ValueSpec::U8(spec_hex2(op[2], op[3])))
    } else if n == 7 && op[0] == 0x28 && op[1] == 0x24 && spec_is_hex(op[2]) && spec_is_hex(op[3])
        && op[4] == 0x29 && op[5] == 0x2c && op[6] == 0x79 {
        // ($hh),y
        (AddressMode::IndirectY, ValueSpec::U8(spec_hex2(op[2], op[3])))
    } else if spec_is_label_text(op) {
        // name
        (AddressMode::Absolute, ValueSpec::Name(op))
    } else if n >= 3 && op[n - 2] == 0x2c && op[n - 1] == 0x78 && spec_is_label_text(
        op.take(n - 2),
    ) {
        // name,x
        (AddressMode::AbsoluteX, ValueSpec::Name(op.take(n - 2)))
    } else if n >= 3 && op[n - 2] == 0x2c && op[n - 1] == 0x79 && spec_is_label_text(
        op.take(n - 2),
    ) {
        // name,y
        (AddressMode::AbsoluteY, ValueSpec::Name(op.take(n - 2)))
    } else if n >= 2 && op[0] == 0x23 && spec_is_label_text(op.skip(1)) {
        // #name
        (AddressMode::Immediate, ValueSpec::Name(op.skip(1)))
    } else if n >= 3 && op[0] == 0x28 && op[n - 1] == 0x29 && spec_is_label_text(
        op.subrange(1, n - 1),
    ) {
        // (name)
        (AddressMode::Indirect, ValueSpec::Name(op.subrange(1, n - 1)))
    } else if n >= 5 && op[0] == 0x28 && op[n - 3] == 0x2c && op[n - 2] == 0x78 && op[n - 1]
        == 0x29 && spec_is_label_text(op.subrange(1, n - 3)) {
        // (name,x)
        (AddressMode::IndirectX, ValueSpec::Name(op.subrange(1, n - 3)))
    } else if n >= 5 && op[0] == 0x28 && op[n - 3] == 0x29 && op[n - 2] == 0x2c && op[n - 1]
        == 0x79 && spec_is_label_text(op.subrange(1, n - 3)) {
        // (name),y
        (AddressMode::IndirectY, ValueSpec::Name(op.subrange(1, n - 3)))
    } else {
        (AddressMode::Unknown, ValueSpec::Name(op))
    }
}

fn is_hex(b: u8) -> (r: bool)
    ensures
        r == spec_is_hex(b),
{
    (0x30 <= b && b <= 0x39) || (0x61 <= b && b <= 0x66)
}

fn hex2(a: u8, b: u8) -> (r: u8)
    requires
        spec_is_hex(a),
        spec_is_hex(b),
    ensures
        r == spec_hex2(a, b),
{
    let na: u8 = if a <= 0x39 {
        a - 0x30
    } else {
        (a - 0x61) + 10
    };
    let nb: u8 = if b <= 0x39 {
        b - 0x30
    } else {
        (b - 0x61) + 10
    };
    na * 16 + nb
}

fn hex4(a: u8, b: u8, c: u8, d: u8) -> (r: u16)
    requires
        spec_is_hex(a),
        spec_is_hex(b),
        spec_is_hex(c),
        spec_is_hex(d),
    ensures
        r == spec_hex4(a, b, c, d),
{
    let na: u16 = if a <= 0x39 {
        (a - 0x30) as u16
    } else {
        ((a - 0x61) + 10) as u16
    };
    let nb: u16 = if b <= 0x39 {
        (b - 0x30) as u16
    } else {
        ((b - 0x61) + 10) as u16
    };
    let nc: u16 = if c <= 0x39 {
        (c - 0x30) as u16
    } else {
        ((c - 0x61) + 10) as u16
    };
    let nd: u16 = if d <= 0x39 {
        (d - 0x30) as u16
    } else {
        ((d - 0x61) + 10) as u16
    };
    na * 4096 + nb * 256 + nc * 16 + nd
}

/// Whether `s[lo..hi]` is in the shape of a symbol name.
fn is_label_text(s: &[u8], lo: usize, hi: usize) -> (r: bool)
    requires
        lo <= hi <= s@.len(),
    ensures
        r == spec_is_label_text(s@.subrange(lo as int, hi as int)),
{
    let ghost w = s@.subrange(lo as int, hi as int);
    if lo == hi {
        return false;
    }
    let b0 = s[lo];
    if !(b0 == 0x5f || (0x61 <= b0 && b0 <= 0x7a)) {
        return false;
    }
    let mut i = lo + 1;
    while i < hi
        invariant
            lo < i <= hi <= s@.len(),
            forall|k: int| lo < k < i ==> spec_is_label_char(s@[k]),
        decreases hi - i,
    {
        let b = s[i];
        if !(b == 0x5f || (0x61 <= b && b <= 0x7a) || (0x30 <= b && b <= 0x39)) {
            proof {
                assert(s@.subrange(lo as int, hi as int)[i - lo] == s@[i as int]);
                assert(!spec_is_label_char(s@.subrange(lo as int, hi as int)[i - lo]));
            }
            return false;
        }
        i += 1;
    }
    true
}

/// Classifies an operand token, yielding its addressing mode and value.
fn get_operand_type(operand: &[u8]) -> (r: (AddressMode, Value))
    ensures
        r.0 == spec_operand(operand@).0,
        r.1@ == spec_operand(operand@).1,
{
    let n = operand.len();
    let ghost op = operand@;
    if n == 0 {
        return (AddressMode::Implied, Value::Null);
    }
    if n == 3 && operand[0] == 0x24 && is_hex(operand[1]) && is_hex(operand[2]) {
        return (AddressMode::Zeropage, Value::U8(hex2(operand[1], operand[2])));
    }
    if n == 5 && operand[0] == 0x24 && is_hex(operand[1]) && is_hex(operand[2]) && operand[3]
        == 0x2c && operand[4] == 0x78 {
        return (AddressMode::ZeropageX, Value::U8(hex2(operand[1], operand[2])));
    }
    if n == 5 && operand[0] == 0x24 && is_hex(operand[1]) && is_hex(operand[2]) && operand[3]
        == 0x2c && operand[4] == 0x79 {
        return (AddressMode::ZeropageY, Value::U8(hex2(operand[1], operand[2])));
    }
    if n == 4 && operand[0] == 0x23 && operand[1] == 0x24 && is_hex(operand[2]) && is_hex(
        operand[3],
    ) {
        return (AddressMode::Immediate, Value::U8(hex2(operand[2], operand[3])));
    }
    if n == 5 && operand[0] == 0x24 && is_hex(operand[1]) && is_hex(operand[2]) && is_hex(
        operand[3],
    ) && is_hex(operand[4]) {
        return (
            AddressMode::Absolute,
            Value::U16(hex4(operand[1], operand[2], operand[3], operand[4])),
        );
    }
    if n == 7 && operand[0] == 0x24 && is_hex(operand[1]) && is_hex(operand[2]) && is_hex(
        operand[3],
    ) && is_hex(operand[4]) && operand[5] == 0x2c && operand[6] == 0x78 {
        return (
            AddressMode::AbsoluteX,
            Value::U16(hex4(operand[1], operand[2], operand[3], operand[4])),
        );
    }
    if n == 7 && operand[0] == 0x24 && is_hex(operand[1]) && is_hex(operand[2]) && is_hex(
        operand[3],
    ) && is_hex(operand[4]) && operand[5] == 0x2c && operand[6] == 0x79 {
        return (
            AddressMode::AbsoluteY,
            Value::U16(hex4(operand[1], operand[2], operand[3], operand[4])),
        );
    }
    if n == 7 && operand[0] == 0x28 && operand[1] == 0x24 && is_hex(operand[2]) && is_hex(
        operand[3],
    ) && is_hex(operand[4]) && is_hex(operand[5]) && operand[6] == 0x29 {
        return (
            AddressMode::Indirect,
            Value::U16(hex4(operand[2], operand[3], operand[4], operand[5])),
        );
    }
    if n == 7 && operand[0] == 0x28 && operand[1] == 0x24 && is_hex(operand[2]) && is_hex(
        operand[3],
    ) && operand[4] == 0x2c && operand[5] == 0x78 && operand[6] == 0x29 {
        return (AddressMode::IndirectX, Value::U8(hex2(operand[2], operand[3])));
    }
    if n == 7 && operand[0] == 0x28 && operand[1] == 0x24 && is_hex(operand[2]) && is_hex(
        operand[3],
    ) && operand[4] == 0x29 && operand[5] == 0x2c && operand[6] == 0x79 {
        return (AddressMode::IndirectY, Value::U8(hex2(operand[2], operand[3])));
    }
    if is_label_text(operand, 0, n) {
        proof {
            assert(op.subrange(0, n as int) =~= op);
        }
        let name = sub_vec(operand, 0, n);
        return (AddressMode::Absolute, Value::String(name));
    }
    if n >= 3 && operand[n - 2] == 0x2c && operand[n - 1] == 0x78 && is_label_text(
        operand,
        0,
        n - 2,
    ) {
        proof {
            assert(op.subrange(0, n - 2) =~= op.take(n - 2));
        }
        let name = sub_vec(operand, 0, n - 2);
        return (AddressMode::AbsoluteX, Value::String(name));
    }
    if n >= 3 && operand[n - 2] == 0x2c && operand[n - 1] == 0x79 && is_label_text(
        operand,
        0,
        n - 2,
    ) {
        proof {
            assert(op.subrange(0, n - 2) =~= op.take(n - 2));
        }
        let name = sub_vec(operand, 0, n - 2);
        return (AddressMode::AbsoluteY, Value::String(name));
    }
    if n >= 2 && operand[0] == 0x23 && is_label_text(operand, 1, n) {
        proof {
            assert(op.subrange(1, n as int) =~= op.skip(1));
        }
        let name = sub_vec(operand, 1, n);
        return (AddressMode::Immediate, Value::String(name));
    }
    if n >= 3 && operand[0] == 0x28 && operand[n - 1] == 0x29 && is_label_text(operand, 1, n - 1) {
        let name = sub_vec(operand, 1, n - 1);
        return (AddressMode::Indirect, Value::String(name));
    }
    if n >= 5 && operand[0] == 0x28 && operand[n - 3] == 0x2c && operand[n - 2] == 0x78 && operand[n
        - 1] == 0x29 && is_label_text(operand, 1, n - 3) {
        let name = sub_vec(operand, 1, n - 3);
        return (AddressMode::IndirectX, Value::String(name));
    }
    if n >= 5 && operand[0] == 0x28 && operand[n - 3] == 0x29 && operand[n - 2] == 0x2c && operand[n
        - 1] == 0x79 && is_label_text(operand, 1, n - 3) {
        let name = sub_vec(operand, 1, n - 3);
        return (AddressMode::IndirectY, Value::String(name));
    }
    proof {
        assert(op.subrange(0, n as int) =~= op);
    }
    let name = sub_vec(operand, 0, n);
    (AddressMode::Unknown, Value::String(name))
}

/// Sorts the code table by address, stably.
fn sort_code(code: CodeTable) -> (r: CodeTable)
    ensures
        code_view(r@) == spec_sort_code(code_view(code@)),
        spec_sorted(code_view(r@)),
{
    let ghost orig = code_view(code@);
    let mut src = code;
    let mut out: CodeTable = Vec::new();
    let ghost mut j: int = 0;
    proof {
        assert(code_view(out@) =~= Seq::<EntrySpec>::empty());
        assert(orig.take(0) =~= Seq::<EntrySpec>::empty());
    }
    while src.len() > 0
        invariant
            0 <= j <= orig.len(),
            code_view(src@) =~= orig.skip(j),
            code_view(out@) == spec_sort_code(orig.take(j)),
            spec_sorted(code_view(out@)),
        decreases src@.len(),
    {
        let e = src.remove(0);
        proof {
            assert(code_view(src@) =~= orig.skip(j).drop_first());
            assert(orig.skip(j).drop_first() =~= orig.skip(j + 1));
            assert(e@ == orig.skip(j)[0]);
            assert(e@ == orig[j]);
        }
        let mut pos = out.len();
        while pos > 0 && out[pos - 1].address > e.address
            invariant
                0 <= pos <= out@.len(),
                forall|k: int| pos <= k < out@.len() ==> #[trigger] code_view(out@)[k].address
                    > e@.address,
            decreases pos,
        {
            pos -= 1;
        }
        proof {
            lemma_insert_sorted_at(code_view(out@), e@, pos as int);
            assert(orig.take(j + 1).drop_last() =~= orig.take(j));
            assert(orig.take(j + 1).last() == orig[j]);
            assert(code_view(out@.insert(pos as int, e)) =~= code_view(out@).take(pos as int)
                + seq![e@] + code_view(out@).skip(pos as int));
        }
        out.insert(pos, e);
        proof {
            j = j + 1;
        }
    }
    proof {
        assert(orig.take(j) =~= orig);
    }
    out
}

/// The parts of a `.byte` list: split on commas, one trailing empty part
/// (from a trailing comma or an empty list) dropped.
pub open spec fn spec_split_terminator(s: Seq<u8>, sep: u8) -> Seq<Seq<u8>> {
    let parts = spec_split(s, sep);
    if parts.len() > 0 && parts.last().len() == 0 {
        parts.drop_last()
    } else {
        parts
    }
}

/// The data blob of a `.byte` list, part by part: each part trimmed,
/// stripped of leading `$`, and read as an 8-bit hexadecimal literal.
pub open spec fn spec_parse_byte_parts(parts: Seq<Seq<u8>>) -> Result<Seq<u8>, ErrorCode>
    decreases parts.len(),
{
    if parts.len() == 0 {
        Ok(Seq::empty())
    } else {
        let raw = spec_strip_leading(spec_trim(parts[0]), 0x24);
        match spec_str_to_u8(raw) {
            None => Err(ErrorCode::HexExpected),
            Some(v) => match spec_parse_byte_parts(parts.drop_first()) {
                Err(c) => Err(c),
                Ok(rest) => Ok(seq![v] + rest),
            },
        }
    }
}

/// The data blob a `.byte` value text denotes, or `HexExpected`.
pub open spec fn spec_parse_bytes(s: Seq<u8>) -> Result<Seq<u8>, ErrorCode> {
    spec_parse_byte_parts(spec_split_terminator(s, 0x2c))
}

/// Reads a comma-separated hexadecimal byte list.
fn parse_bytes(bytes: &[u8]) -> (r: Result<Vec<u8>, Error>)
    ensures
        (match r {
            Ok(d) => spec_parse_bytes(bytes@) == Ok::<Seq<u8>, ErrorCode>(d@),
            Err(e) => spec_parse_bytes(bytes@) == Err::<Seq<u8>, ErrorCode>(e.0),
        }),
{
    let mut parts = split_bytes(bytes, 0x2c);
    proof {
        crate::strings::lemma_split_len(bytes@, 0x2c);
    }
    if parts.len() > 0 && parts[parts.len() - 1].len() == 0 {
        proof {
            let pv = parts@.map_values(|v: Vec<u8>| v@);
            assert(pv.last() == parts@.last()@);
            assert(pv.drop_last() =~= parts@.drop_last().map_values(|v: Vec<u8>| v@));
        }
        parts.pop();
    }
    let ghost pv = parts@.map_values(|v: Vec<u8>| v@);
    proof {
        assert(pv == spec_split_terminator(bytes@, 0x2c));
    }
    let m = parts.len();
    let mut data: Vec<u8> = Vec::new();
    let mut i: usize = 0;
    proof {
        assert(pv.skip(0) =~= pv);
    }
    while i < m
        invariant
            0 <= i <= m,
            m == parts@.len(),
            pv == parts@.map_values(|v: Vec<u8>| v@),
            pv == spec_split_terminator(bytes@, 0x2c),
            (match spec_parse_byte_parts(pv.skip(i as int)) {
                Ok(rest) => spec_parse_byte_parts(pv) == Ok::<Seq<u8>, ErrorCode>(data@ + rest),
                Err(c) => spec_parse_byte_parts(pv) == Err::<Seq<u8>, ErrorCode>(c),
            }),
        decreases m - i,
    {
        let ghost tail = pv.skip(i as int);
        proof {
            assert(tail[0] == pv[i as int]);
            assert(pv[i as int] == parts@[i as int]@);
            assert(tail.drop_first() =~= pv.skip(i + 1));
        }
        let part = &parts[i];
        let plen = part.len();
        let (t0, t1) = trim_bounds(part.as_slice(), 0, plen);
        let d0 = skip_leading(part.as_slice(), t0, t1, 0x24);
        proof {
            assert(part@.subrange(0, plen as int) =~= part@);
            let w = part@.subrange(t0 as int, t1 as int);
            lemma_strip_leading_idx(w, 0x24, d0 - t0);
            assert(w.skip(d0 - t0) =~= part@.subrange(d0 as int, t1 as int));
        }
        let raw = slice_subrange(part.as_slice(), d0, t1);
        match str_to_u8(raw) {
            None => {
                return Err(error(ErrorCode::HexExpected, "Expected hexadecimal".to_owned()));
            },
            Some(v) => {
                proof {
                    assert(data@.push(v) =~= data@ + seq![v]);
                    let rest0 = spec_parse_byte_parts(pv.skip(i + 1));
                    if rest0 is Ok {
                        assert((data@ + seq![v]) + rest0.unwrap() =~= data@ + (seq![v]
                            + rest0.unwrap()));
                    }
                }
                data.push(v);
            },
        }
        i += 1;
    }
    proof {
        assert(pv.skip(m as int) =~= Seq::<Seq<u8>>::empty());
        assert(data@ + Seq::<u8>::empty() =~= data@);
    }
    Ok(data)
}

/// The name and value of an `.equ` body: the name before the first `=`,
/// the value between the first and second `=`, both trimmed, the value
/// stripped of leading `$` and read as a 16-bit hexadecimal literal.
pub open spec fn spec_parse_equ(s: Seq<u8>) -> Result<(Seq<u8>, u16), ErrorCode> {
    let before = spec_before(s, 0x3d);
    if before.len() == s.len() {
        Err(ErrorCode::MalformedEqu)
    } else {
        let name = spec_trim(before);
        let after = s.skip(before.len() as int + 1);
        let raw = spec_strip_leading(spec_trim(spec_before(after, 0x3d)), 0x24);
        match spec_str_to_u16(raw) {
            None => Err(ErrorCode::HexExpected),
            Some(v) => Ok((name, v)),
        }
    }
}

/// Reads the `name = $value` body of an `.equ` directive.
fn parse_equ(equ: &[u8]) -> (r: Result<(Vec<u8>, u16), Error>)
    ensures
        (match r {
            Ok(p) => spec_parse_equ(equ@) == Ok::<(Seq<u8>, u16), ErrorCode>((p.0@, p.1)),
            Err(e) => spec_parse_equ(equ@) == Err::<(Seq<u8>, u16), ErrorCode>(e.0),
        }),
{
    let n = equ.len();
    let p = find_byte(equ, 0, n, 0x3d);
    proof {
        lemma_before_idx(equ@, 0x3d, p as int);
    }
    if p == n {
        return Err(error(ErrorCode::MalformedEqu, "Malformed .equ directive".to_owned()));
    }
    let (n0, n1) = trim_bounds(equ, 0, p);
    proof {
        assert(equ@.take(p as int) =~= equ@.subrange(0, p as int));
    }
    let name = sub_vec(equ, n0, n1);
    let q = find_byte(equ, p + 1, n, 0x3d);
    proof {
        let after = equ@.skip(p + 1);
        lemma_before_idx(after, 0x3d, q - (p + 1));
        assert(after.take(q - (p + 1)) =~= equ@.subrange(p + 1, q as int));
    }
    let (v0, v1) = trim_bounds(equ, p + 1, q);
    let d0 = skip_leading(equ, v0, v1, 0x24);
    proof {
        let w = equ@.subrange(v0 as int, v1 as int);
        lemma_strip_leading_idx(w, 0x24, d0 - v0);
        assert(w.skip(d0 - v0) =~= equ@.subrange(d0 as int, v1 as int));
    }
    let raw = slice_subrange(equ, d0, v1);
    match str_to_u16(raw) {
        None => Err(error(ErrorCode::HexExpected, "Expected hexadecimal".to_owned())),
        Some(v) => Ok((name, v)),
    }
}

/// What a label line does: strip the trailing colons, refuse a name that is
/// already recorded, otherwise record it at the current location counter.
pub open spec fn spec_handle_label(p: ProgramSpec, line: Seq<u8>, ln: u16) -> Result<
    ProgramSpec,
    ErrorCode,
> {
    let name = spec_strip_trailing(line, 0x3a);
    if spec_sym_lookup(p.symbols, name) is Some {
        Err(ErrorCode::DuplicateLabel)
    } else {
        Ok(
            ProgramSpec {
                symbols: p.symbols.push((name, Label { address: p.counter, line: ln })),
                code: p.code,
                counter: p.counter,
            },
        )
    }
}

/// Records a label definition line.
fn handle_label(program: &mut Program, raw_label: &[u8], line_number: u16) -> (r: Result<(), Error>)
    ensures
        (match r {
            Ok(_) => spec_handle_label(old(program)@, raw_label@, line_number) == Ok::<
                ProgramSpec,
                ErrorCode,
            >(final(program)@),
            Err(e) => spec_handle_label(old(program)@, raw_label@, line_number) == Err::<
                ProgramSpec,
                ErrorCode,
            >(e.0) && final(program)@ == old(program)@,
        }),
{
    let n = raw_label.len();
    let t = skip_trailing(raw_label, 0, n, 0x3a);
    proof {
        lemma_strip_trailing_idx(raw_label@, 0x3a, t as int);
        assert(raw_label@.take(t as int) =~= raw_label@.subrange(0, t as int));
    }
    let name = sub_vec(raw_label, 0, t);
    if program.symbol_table.contains_key(name.as_slice()) {
        return Err(error(ErrorCode::DuplicateLabel, "Duplicate label found".to_owned()));
    }
    let label = Label { address: program.counter, line: line_number };
    program.symbol_table.insert(name, label);
    Ok(())
}

/// What a directive line does. The line is trimmed and stripped of its
/// leading dots; the keyword runs to the first space and the value is
/// everything after it, empty when the line has no space.
///
/// - `org` sets the location counter to its 16-bit value, else
///   `AddressExpected`;
/// - `byte` appends its data blob at the counter and advances the counter
///   by the blob length, else `HexExpected`;
/// - `ascii` strips the surrounding quotes, expands escapes, appends the
///   blob and advances the counter likewise;
/// - `equ` records its name and value under the label uniqueness rule,
///   without touching counter or code;
/// - anything else is `UnknownDirective`.
pub open spec fn spec_handle_directive(p: ProgramSpec, line: Seq<u8>, ln: u16) -> Result<
    ProgramSpec,
    ErrorCode,
> {
    let t = spec_strip_leading(spec_trim(line), 0x2e);
    let dir = spec_before(t, 0x20);
    let value = if dir.len() == t.len() {
        Seq::<u8>::empty()
    } else {
        t.skip(dir.len() as int + 1)
    };
    if dir.len() == 3 && dir[0] == 0x6f && dir[1] == 0x72 && dir[2] == 0x67 {
        // org
        match spec_str_to_u16(spec_strip_leading(value, 0x24)) {
            None => Err(ErrorCode::AddressExpected),
            Some(a) => Ok(ProgramSpec { symbols: p.symbols, code: p.code, counter: a }),
        }
    } else if dir.len() == 4 && dir[0] == 0x62 && dir[1] == 0x79 && dir[2] == 0x74 && dir[3]
        == 0x65 {
        // byte
        match spec_parse_bytes(value) {
            Err(c) => Err(c),
            Ok(data) => Ok(
                ProgramSpec {
                    symbols: p.symbols,
                    code: p.code.push(
                        (EntrySpec { address: p.counter, content: ContentSpec::Data(data) }),
                    ),
                    counter: spec_wrap_add(p.counter, data.len()),
                },
            ),
        }
    } else if dir.len() == 5 && dir[0] == 0x61 && dir[1] == 0x73 && dir[2] == 0x63 && dir[3]
        == 0x69 && dir[4] == 0x69 {
        // ascii
        let text = spec_strip_trailing(spec_strip_leading(value, 0x22), 0x22);
        let data = spec_ascii_bytes(text);
        Ok(
            ProgramSpec {
                symbols: p.symbols,
                code: p.code.push(
                    (EntrySpec { address: p.counter, content: ContentSpec::Data(data) }),
                ),
                counter: spec_wrap_add(p.counter, data.len()),
            },
        )
    } else if dir.len() == 3 && dir[0] == 0x65 && dir[1] == 0x71 && dir[2] == 0x75 {
        // equ
        match spec_parse_equ(value) {
            Err(c) => Err(c),
            Ok(nv) => if spec_sym_lookup(p.symbols, nv.0) is Some {
                Err(ErrorCode::DuplicateLabel)
            } else {
                Ok(
                    ProgramSpec {
                        symbols: p.symbols.push((nv.0, Label { address: nv.1, line: ln })),
                        code: p.code,
                        counter: p.counter,
                    },
                )
            },
        }
    } else {
        Err(ErrorCode::UnknownDirective)
    }
}

/// Carries out a directive line.
#[verifier::rlimit(100)]
fn handle_directive(program: &mut Program, raw_line: &[u8], line_number: u16) -> (r: Result<
    (),
    Error,
>)
    ensures
        (match r {
            Ok(_) => spec_handle_directive(old(program)@, raw_line@, line_number) == Ok::<
                ProgramSpec,
                ErrorCode,
            >(final(program)@),
            Err(e) => spec_handle_directive(old(program)@, raw_line@, line_number) == Err::<
                ProgramSpec,
                ErrorCode,
            >(e.0) && final(program)@ == old(program)@,
        }),
{
    let n = raw_line.len();
    let (t0, t1) = trim_bounds(raw_line, 0, n);
    let a = skip_leading(raw_line, t0, t1, 0x2e);
    proof {
        assert(raw_line@.subrange(0, n as int) =~= raw_line@);
        let w = raw_line@.subrange(t0 as int, t1 as int);
        lemma_strip_leading_idx(w, 0x2e, a - t0);
        assert(w.skip(a - t0) =~= raw_line@.subrange(a as int, t1 as int));
    }
    let sp = find_byte(raw_line, a, t1, 0x20);
    let ghost t = raw_line@.subrange(a as int, t1 as int);
    let ghost dir = raw_line@.subrange(a as int, sp as int);
    let ghost value = if sp == t1 {
        Seq::<u8>::empty()
    } else {
        raw_line@.subrange(sp as int + 1, t1 as int)
    };
    proof {
        lemma_before_idx(t, 0x20, sp - a);
        assert(t.take(sp - a) =~= dir);
        if sp < t1 {
            assert(t.skip(dir.len() as int + 1) =~= value);
            assert(dir.len() < t.len());
        } else {
            assert(dir.len() == t.len());
        }
    }
    let vlo: usize = if sp < t1 {
        sp + 1
    } else {
        t1
    };
    proof {
        assert(value =~= raw_line@.subrange(vlo as int, t1 as int));
    }
    let dlen = sp - a;
    if dlen == 3 && raw_line[a] == 0x6f && raw_line[a + 1] == 0x72 && raw_line[a + 2] == 0x67 {
        // org
        let d0 = skip_leading(raw_line, vlo, t1, 0x24);
        proof {
            let w = raw_line@.subrange(vlo as int, t1 as int);
            lemma_strip_leading_idx(w, 0x24, d0 - vlo);
            assert(w.skip(d0 - vlo) =~= raw_line@.subrange(d0 as int, t1 as int));
        }
        let raw = slice_subrange(raw_line, d0, t1);
        match str_to_u16(raw) {
            None => Err(error(ErrorCode::AddressExpected, "Expected address".to_owned())),
            Some(address) => {
                program.counter = address;
                Ok(())
            },
        }
    } else if dlen == 4 && raw_line[a] == 0x62 && raw_line[a + 1] == 0x79 && raw_line[a + 2]
        == 0x74 && raw_line[a + 3] == 0x65 {
        // byte
        let value_slice = slice_subrange(raw_line, vlo, t1);
        match parse_bytes(value_slice) {
            Err(e) => Err(e),
            Ok(data) => {
                let len = data.len();
                let ghost before = program@;
                let entry = CodeTableEntry {
                    address: program.counter,
                    content: Content::Data(data),
                };
                let ghost ev = entry@;
                program.code.push(entry);
                let len16: u16 = (len % 0x10000) as u16;
                proof {
                    vstd::arithmetic::div_mod::lemma_small_mod(
                        program.counter as nat,
                        0x10000,
                    );
                    vstd::arithmetic::div_mod::lemma_add_mod_noop(
                        program.counter as int,
                        len as int,
                        0x10000,
                    );
                }
                let next: u32 = program.counter as u32 + len16 as u32;
                program.counter = (next % 0x10000) as u16;
                proof {
                    assert(code_view(program.code@) =~= before.code.push(ev));
                }
                Ok(())
            },
        }
    } else if dlen == 5 && raw_line[a] == 0x61 && raw_line[a + 1] == 0x73 && raw_line[a + 2]
        == 0x63 && raw_line[a + 3] == 0x69 && raw_line[a + 4] == 0x69 {
        // ascii
        let q0 = skip_leading(raw_line, vlo, t1, 0x22);
        let q1 = skip_trailing(raw_line, q0, t1, 0x22);
        proof {
            let w = raw_line@.subrange(vlo as int, t1 as int);
            lemma_strip_leading_idx(w, 0x22, q0 - vlo);
            assert(w.skip(q0 - vlo) =~= raw_line@.subrange(q0 as int, t1 as int));
            let w2 = raw_line@.subrange(q0 as int, t1 as int);
            lemma_strip_trailing_idx(w2, 0x22, q1 - q0);
            assert(w2.take(q1 - q0) =~= raw_line@.subrange(q0 as int, q1 as int));
        }
        let text = slice_subrange(raw_line, q0, q1);
        let (data, size) = ascii_to_bytes(text);
        let ghost before = program@;
        let entry = CodeTableEntry { address: program.counter, content: Content::Data(data) };
        let ghost ev = entry@;
        program.code.push(entry);
        proof {
            vstd::arithmetic::div_mod::lemma_small_mod(program.counter as nat, 0x10000);
            vstd::arithmetic::div_mod::lemma_add_mod_noop(
                program.counter as int,
                ev.content->Data_0.len() as int,
                0x10000,
            );
        }
        let next: u32 = program.counter as u32 + size as u32;
        program.counter = (next % 0x10000) as u16;
        proof {
            assert(code_view(program.code@) =~= before.code.push(ev));
        }
        Ok(())
    } else if dlen == 3 && raw_line[a] == 0x65 && raw_line[a + 1] == 0x71 && raw_line[a + 2]
        == 0x75 {
        // equ
        let value_slice = slice_subrange(raw_line, vlo, t1);
        match parse_equ(value_slice) {
            Err(e) => Err(e),
            Ok((name, v)) => {
                if program.symbol_table.contains_key(name.as_slice()) {
                    return Err(
                        error(ErrorCode::DuplicateLabel, "Duplicate label found".to_owned()),
                    );
                }
                program.symbol_table.insert(name, Label { address: v, line: line_number });
                Ok(())
            },
        }
    } else {
        Err(error(ErrorCode::UnknownDirective, "Unknown directive".to_owned()))
    }
}

/// What an instruction line does: the first token, lowercased, must name a
/// mnemonic, else `UnknownInstruction`; the second token, if any, is
/// classified as the operand, else the mode is implied; the instruction is
/// recorded at the counter, which advances by the mode's encoded length.
pub open spec fn spec_handle_instruction(p: ProgramSpec, line: Seq<u8>) -> Result<
    ProgramSpec,
    ErrorCode,
> {
    let rest0 = spec_skip_token_ws(line);
    let tok1 = spec_token(rest0);
    let after1 = rest0.skip(tok1.len() as int);
    let rest1 = spec_skip_token_ws(after1);
    let tok2 = spec_token(rest1);
    let mv = if tok2.len() == 0 {
        (AddressMode::Implied, ValueSpec::Null)
    } else {
        spec_operand(tok2)
    };
    match spec_mnemonic(spec_to_lower(tok1)) {
        None => Err(ErrorCode::UnknownInstruction),
        Some(m) => Ok(
            ProgramSpec {
                symbols: p.symbols,
                code: p.code.push(
                    (EntrySpec {
                        address: p.counter,
                        content: ContentSpec::Code(
                            CodeSpec { mnemonic: m, address_mode: mv.0, value: mv.1 },
                        ),
                    }),
                ),
                counter: spec_wrap_add(p.counter, spec_address_mode_length(mv.0) as nat),
            },
        ),
    }
}

/// Records an instruction line.
fn handle_instruction(program: &mut Program, line: &[u8]) -> (r: Result<(), Error>)
    ensures
        (match r {
            Ok(_) => spec_handle_instruction(old(program)@, line@) == Ok::<
                ProgramSpec,
                ErrorCode,
            >(final(program)@),
            Err(e) => spec_handle_instruction(old(program)@, line@) == Err::<
                ProgramSpec,
                ErrorCode,
            >(e.0) && final(program)@ == old(program)@,
        }),
{
    let n = line.len();
    let a = skip_token_ws(line, 0, n);
    let e1 = token_end(line, a, n);
    let a2 = skip_token_ws(line, e1, n);
    let e2 = token_end(line, a2, n);
    proof {
        lemma_skip_token_ws_idx(line@, a as int);
        let rest0 = line@.skip(a as int);
        lemma_token_idx(rest0, e1 - a);
        assert(rest0.take(e1 - a) =~= line@.subrange(a as int, e1 as int));
        let tok1 = line@.subrange(a as int, e1 as int);
        assert(rest0.skip(tok1.len() as int) =~= line@.skip(e1 as int));
        let after1 = line@.skip(e1 as int);
        lemma_skip_token_ws_idx(after1, a2 - e1);
        assert(after1.skip(a2 - e1) =~= line@.skip(a2 as int));
        let rest1 = line@.skip(a2 as int);
        lemma_token_idx(rest1, e2 - a2);
        assert(rest1.take(e2 - a2) =~= line@.subrange(a2 as int, e2 as int));
    }
    let mnem_raw = slice_subrange(line, a, e1);
    let lowered = to_lower(mnem_raw);
    let (address_mode, value) = if a2 == e2 {
        (AddressMode::Implied, Value::Null)
    } else {
        get_operand_type(slice_subrange(line, a2, e2))
    };
    match str_to_mnemonic(lowered.as_slice()) {
        Err(e) => Err(e),
        Ok(mnemonic) => {
            let ghost before = program@;
            let entry = CodeTableEntry {
                address: program.counter,
                content: Content::Code(Code { mnemonic, address_mode, value }),
            };
            let ghost ev = entry@;
            program.code.push(entry);
            let len = address_mode_length(address_mode);
            proof {
                vstd::arithmetic::div_mod::lemma_small_mod(program.counter as nat, 0x10000);
                vstd::arithmetic::div_mod::lemma_add_mod_noop(
                    program.counter as int,
                    len as int,
                    0x10000,
                );
                vstd::arithmetic::div_mod::lemma_small_mod(len as nat, 0x10000);
            }
            let next: u32 = program.counter as u32 + len as u32;
            program.counter = (next % 0x10000) as u16;
            proof {
                assert(code_view(program.code@) =~= before.code.push(ev));
            }
            Ok(())
        },
    }
}

/// A byte that may open an instruction line: an ASCII letter.
pub open spec fn spec_is_alpha(b: u8) -> bool {
    (0x41 <= b && b <= 0x5a) || (0x61 <= b && b <= 0x7a)
}

/// What one source line does to the program state, by its shape: a line
/// ending in `:` defines a label, a line opening with `.` is a directive, a
/// line opening with a letter is an instruction, and anything else is
/// `UnknownSyntax`. The empty line is refused as `UnknownSyntax` too; the
/// scanner never produces one.
pub open spec fn spec_pass1_step(p: ProgramSpec, line: Seq<u8>, ln: u16) -> Result<
    ProgramSpec,
    ErrorCode,
> {
    if line.len() == 0 {
        Err(ErrorCode::UnknownSyntax)
    } else if line.last() == 0x3a {
        spec_handle_label(p, line, ln)
    } else if line[0] == 0x2e {
        spec_handle_directive(p, line, ln)
    } else if spec_is_alpha(line[0]) {
        spec_handle_instruction(p, line)
    } else {
        Err(ErrorCode::UnknownSyntax)
    }
}

/// The fold of pass 1 over the scanned lines: each failure aborts the run.
pub open spec fn spec_pass1_lines(p: ProgramSpec, lines: Seq<(Seq<u8>, u16)>) -> Result<
    ProgramSpec,
    ErrorCode,
>
    decreases lines.len(),
{
    if lines.len() == 0 {
        Ok(p)
    } else {
        match spec_pass1_step(p, lines[0].0, lines[0].1) {
            Err(c) => Err(c),
            Ok(p2) => spec_pass1_lines(p2, lines.drop_first()),
        }
    }
}

/// The finished pass 1: the fold from the initial state, then the code
/// table sorted by address.
pub open spec fn spec_pass1(lines: Seq<(Seq<u8>, u16)>) -> Result<ProgramSpec, ErrorCode> {
    match spec_pass1_lines(spec_initial_program(), lines) {
        Err(c) => Err(c),
        Ok(p) => Ok(
            ProgramSpec { symbols: p.symbols, code: spec_sort_code(p.code), counter: p.counter },
        ),
    }
}

/// Runs pass 1 over the scanned source: classifies every line, builds the
/// symbol table and the code table, and sorts the code table by address.
pub fn pass1(source: &SourceTable) -> (r: Result<Program, Error>)
    requires
        forall|i: int| 0 <= i < source@.len() ==> (#[trigger] source@[i]@).0.len() > 0,
    ensures
        (match r {
            Ok(p) => spec_pass1(crate::scanner::lines_view(source@)) == Ok::<
                ProgramSpec,
                ErrorCode,
            >(p@),
            Err(e) => spec_pass1(crate::scanner::lines_view(source@)) == Err::<
                ProgramSpec,
                ErrorCode,
            >(e.0),
        }),
{
    let ghost all = crate::scanner::lines_view(source@);
    let mut program = Program::new();
    let m = source.len();
    let mut i: usize = 0;
    proof {
        assert(all.skip(0) =~= all);
    }
    while i < m
        invariant
            0 <= i <= m,
            m == source@.len(),
            all == crate::scanner::lines_view(source@),
            forall|k: int| 0 <= k < source@.len() ==> (#[trigger] source@[k]@).0.len() > 0,
            spec_pass1_lines(spec_initial_program(), all) == spec_pass1_lines(
                program@,
                all.skip(i as int),
            ),
        decreases m - i,
    {
        let ghost tail = all.skip(i as int);
        proof {
            reveal(spec_pass1_step);
            assert(tail[0] == all[i as int]);
            assert(all[i as int] == source@[i as int]@);
            assert(tail.drop_first() =~= all.skip(i + 1));
        }
        let sl = &source[i];
        let text = sl.line.as_slice();
        let ln = sl.line_number;
        let tlen = text.len();
        let first = text[0];
        let last = text[tlen - 1];
        let step = if last == 0x3a {
            handle_label(&mut program, text, ln)
        } else if first == 0x2e {
            handle_directive(&mut program, text, ln)
        } else if (0x41 <= first && first <= 0x5a) || (0x61 <= first && first <= 0x7a) {
            handle_instruction(&mut program, text)
        } else {
            Err(error(ErrorCode::UnknownSyntax, "Unknown syntax".to_owned()))
        };
        match step {
            Ok(_) => {},
            Err(e) => {
                return Err(e);
            },
        }
        i += 1;
    }
    proof {
        assert(all.skip(m as int) =~= Seq::<(Seq<u8>, u16)>::empty());
    }
    let Program { symbol_table, code, counter } = program;
    let sorted = sort_code(code);
    let r = Program { symbol_table, code: sorted, counter };
    Ok(r)
}

proof fn lemma_sym_lookup_push(t: Seq<(Seq<u8>, Label)>, name: Seq<u8>, e: (Seq<u8>, Label))
    ensures
        spec_sym_lookup(t, name) is Some ==> spec_sym_lookup(t.push(e), name) == spec_sym_lookup(
            t,
            name,
        ),
        spec_sym_lookup(t, name) is None ==> spec_sym_lookup(t.push(e), name) == (if e.0 == name {
            Some(e.1)
        } else {
            None
        }),
    decreases t.len(),
{
    if t.len() == 0 {
        assert(t.push(e)[0] == e);
        assert(t.push(e).drop_first() =~= Seq::<(Seq<u8>, Label)>::empty());
        if e.0 == name {
            assert(spec_sym_lookup(t.push(e), name) == Some(e.1));
        } else {
            assert(spec_sym_lookup(t.push(e), name) == spec_sym_lookup(
                t.push(e).drop_first(),
                name,
            ));
            assert(spec_sym_lookup(t.push(e).drop_first(), name) is None);
        }
    } else {
        lemma_sym_lookup_push(t.drop_first(), name, e);
        assert(t.push(e).drop_first() =~= t.drop_first().push(e));
        assert(t.push(e)[0] == t[0]);
        if t[0].0 == name {
        } else {
            assert(spec_sym_lookup(t.push(e), name) == spec_sym_lookup(
                t.drop_first().push(e),
                name,
            ));
            assert(spec_sym_lookup(t, name) == spec_sym_lookup(t.drop_first(), name));
        }
    }
}

/// The name a line defines, if any: a label line defines its stripped
/// name, a well-formed `.equ` directive defines its name, and no other
/// line defines one.
pub open spec fn spec_def_name(line: Seq<u8>) -> Option<Seq<u8>> {
    if line.len() == 0 {
        None
    } else if line.last() == 0x3a {
        Some(spec_strip_trailing(line, 0x3a))
    } else if line[0] == 0x2e {
        let t = spec_strip_leading(spec_trim(line), 0x2e);
        let dir = spec_before(t, 0x20);
        let value = if dir.len() == t.len() {
            Seq::<u8>::empty()
        } else {
            t.skip(dir.len() as int + 1)
        };
        if dir.len() == 3 && dir[0] == 0x65 && dir[1] == 0x71 && dir[2] == 0x75 {
            match spec_parse_equ(value) {
                Ok(nv) => Some(nv.0),
                Err(_) => None,
            }
        } else {
            None
        }
    } else {
        None
    }
}

/// A successful step never loses a symbol: a name already resolved looks
/// up to the same entry afterwards.
proof fn lemma_step_preserves_symbol(p: ProgramSpec, line: Seq<u8>, ln: u16, name: Seq<u8>)
    requires
        spec_pass1_step(p, line, ln) is Ok,
        spec_sym_lookup(p.symbols, name) is Some,
    ensures
        spec_sym_lookup(spec_pass1_step(p, line, ln)->Ok_0.symbols, name) == spec_sym_lookup(
            p.symbols,
            name,
        ),
{
    reveal(spec_pass1_step);
    lemma_sym_lookup_push(
        p.symbols,
        name,
        (spec_strip_trailing(line, 0x3a), Label { address: p.counter, line: ln }),
    );
    if line.len() > 0 && line.last() != 0x3a && line[0] == 0x2e {
        let t = spec_strip_leading(spec_trim(line), 0x2e);
        let dir = spec_before(t, 0x20);
        let value = if dir.len() == t.len() {
            Seq::<u8>::empty()
        } else {
            t.skip(dir.len() as int + 1)
        };
        match spec_parse_equ(value) {
            Ok(nv) => {
                lemma_sym_lookup_push(p.symbols, name, (nv.0, Label { address: nv.1, line: ln }));
            },
            Err(_) => {},
        }
    }
}

/// A successful fold never loses a symbol.
proof fn lemma_fold_preserves_symbol(p: ProgramSpec, lines: Seq<(Seq<u8>, u16)>, name: Seq<u8>)
    requires
        spec_pass1_lines(p, lines) is Ok,
        spec_sym_lookup(p.symbols, name) is Some,
    ensures
        spec_sym_lookup(spec_pass1_lines(p, lines)->Ok_0.symbols, name) == spec_sym_lookup(
            p.symbols,
            name,
        ),
    decreases lines.len(),
{
    if lines.len() > 0 {
        let p2 = spec_pass1_step(p, lines[0].0, lines[0].1)->Ok_0;
        lemma_step_preserves_symbol(p, lines[0].0, lines[0].1, name);
        lemma_fold_preserves_symbol(p2, lines.drop_first(), name);
    }
}

/// A successful step records the name its line defines.
proof fn lemma_step_defines(p: ProgramSpec, line: Seq<u8>, ln: u16, name: Seq<u8>)
    requires
        spec_pass1_step(p, line, ln) is Ok,
        spec_def_name(line) == Some(name),
    ensures
        spec_sym_lookup(spec_pass1_step(p, line, ln)->Ok_0.symbols, name) is Some,
{
    reveal(spec_pass1_step);
    lemma_sym_lookup_push(p.symbols, name, (name, Label { address: p.counter, line: ln }));
    if line.len() > 0 && line.last() != 0x3a && line[0] == 0x2e {
        let t = spec_strip_leading(spec_trim(line), 0x2e);
        let dir = spec_before(t, 0x20);
        let value = if dir.len() == t.len() {
            Seq::<u8>::empty()
        } else {
            t.skip(dir.len() as int + 1)
        };
        match spec_parse_equ(value) {
            Ok(nv) => {
                lemma_sym_lookup_push(p.symbols, name, (nv.0, Label { address: nv.1, line: ln }));
            },
            Err(_) => {},
        }
    }
}

/// A step refuses to define a name that is already recorded: the result is
/// the `DuplicateLabel` error.
proof fn lemma_step_rejects_known(p: ProgramSpec, line: Seq<u8>, ln: u16, name: Seq<u8>)
    requires
        spec_sym_lookup(p.symbols, name) is Some,
        spec_def_name(line) == Some(name),
    ensures
        spec_pass1_step(p, line, ln) == Err::<ProgramSpec, ErrorCode>(ErrorCode::DuplicateLabel),
{
    reveal(spec_pass1_step);
}

/// No line of a successful fold defines a name that was already recorded
/// when the fold began.
proof fn lemma_fold_rejects_known(
    p: ProgramSpec,
    lines: Seq<(Seq<u8>, u16)>,
    name: Seq<u8>,
    j: int,
)
    requires
        spec_pass1_lines(p, lines) is Ok,
        spec_sym_lookup(p.symbols, name) is Some,
        0 <= j < lines.len(),
    ensures
        spec_def_name(lines[j].0) != Some(name),
    decreases j,
{
    if spec_def_name(lines[j].0) == Some(name) {
        if j == 0 {
            lemma_step_rejects_known(p, lines[0].0, lines[0].1, name);
        } else {
            let p2 = spec_pass1_step(p, lines[0].0, lines[0].1)->Ok_0;
            lemma_step_preserves_symbol(p, lines[0].0, lines[0].1, name);
            lemma_fold_rejects_known(p2, lines.drop_first(), name, j - 1);
        }
    }
}

proof fn lemma_fold_label_defined(p: ProgramSpec, lines: Seq<(Seq<u8>, u16)>, i: int)
    requires
        spec_pass1_lines(p, lines) is Ok,
        0 <= i < lines.len(),
        spec_def_name(lines[i].0) is Some,
    ensures
        spec_sym_lookup(
            spec_pass1_lines(p, lines)->Ok_0.symbols,
            spec_def_name(lines[i].0)->Some_0,
        ) is Some,
    decreases i,
{
    let p2 = spec_pass1_step(p, lines[0].0, lines[0].1)->Ok_0;
    if i == 0 {
        lemma_step_defines(p, lines[0].0, lines[0].1, spec_def_name(lines[0].0)->Some_0);
        lemma_fold_preserves_symbol(p2, lines.drop_first(), spec_def_name(lines[0].0)->Some_0);
    } else {
        lemma_fold_label_defined(p2, lines.drop_first(), i - 1);
    }
}

proof fn lemma_fold_no_duplicates(p: ProgramSpec, lines: Seq<(Seq<u8>, u16)>, i: int, j: int)
    requires
        spec_pass1_lines(p, lines) is Ok,
        0 <= i < j < lines.len(),
        spec_def_name(lines[i].0) is Some,
        spec_def_name(lines[j].0) is Some,
    ensures
        spec_def_name(lines[i].0) != spec_def_name(lines[j].0),
    decreases i,
{
    let p2 = spec_pass1_step(p, lines[0].0, lines[0].1)->Ok_0;
    if i == 0 {
        let name = spec_def_name(lines[0].0)->Some_0;
        lemma_step_defines(p, lines[0].0, lines[0].1, name);
        if spec_def_name(lines[j].0) == Some(name) {
            lemma_fold_rejects_known(p2, lines.drop_first(), name, j - 1);
        }
    } else {
        lemma_fold_no_duplicates(p2, lines.drop_first(), i - 1, j - 1);
    }
}

proof fn lemma_fold_split_seqs(lines: Seq<(Seq<u8>, u16)>, i: int)
    requires
        1 <= i <= lines.len(),
    ensures
        lines.take(i).len() == i,
        lines.take(i)[0] == lines[0],
        lines.take(i).drop_first() == lines.drop_first().take(i - 1),
        lines.drop_first().skip(i - 1) == lines.skip(i),
{
    assert(lines.take(i).drop_first() =~= lines.drop_first().take(i - 1));
    assert(lines.drop_first().skip(i - 1) =~= lines.skip(i));
}

/// The fold over all lines is the fold over a prefix continued over the
/// remainder.
#[verifier::spinoff_prover]
#[verifier::rlimit(100)]
proof fn lemma_fold_split(p: ProgramSpec, lines: Seq<(Seq<u8>, u16)>, i: int)
    requires
        0 <= i <= lines.len(),
    ensures
        spec_pass1_lines(p, lines) == (match spec_pass1_lines(p, lines.take(i)) {
            Err(c) => Err(c),
            Ok(q) => spec_pass1_lines(q, lines.skip(i)),
        }),
    decreases i,
{
    if i == 0 {
        assert(lines.take(0) =~= Seq::<(Seq<u8>, u16)>::empty());
        assert(lines.skip(0) =~= lines);
    } else {
        lemma_fold_split_seqs(lines, i);
        match spec_pass1_step(p, lines[0].0, lines[0].1) {
            Err(_) => {},
            Ok(p2) => {
                lemma_fold_split(p2, lines.drop_first(), i - 1);
            },
        }
    }
}

/// A label line records the location counter as it stood when the line was
/// reached, and the finished table resolves the name to exactly that
/// address — which is what a use of the name, earlier or later in the
/// source, is emitted as.
pub proof fn lemma_label_address(lines: Seq<(Seq<u8>, u16)>, i: int)
    requires
        spec_pass1(lines) is Ok,
        0 <= i < lines.len(),
        lines[i].0.len() > 0,
        lines[i].0.last() == 0x3a,
    ensures
        spec_pass1_lines(spec_initial_program(), lines.take(i)) is Ok,
        spec_sym_lookup(spec_pass1(lines)->Ok_0.symbols, spec_strip_trailing(lines[i].0, 0x3a))
            == Some(
            Label {
                address: spec_pass1_lines(spec_initial_program(), lines.take(i))->Ok_0.counter,
                line: lines[i].1,
            },
        ),
{
    reveal(spec_pass1_step);
    lemma_fold_split(spec_initial_program(), lines, i);
    let q = spec_pass1_lines(spec_initial_program(), lines.take(i))->Ok_0;
    let tailseq = lines.skip(i);
    assert(tailseq[0] == lines[i]);
    let name = spec_strip_trailing(lines[i].0, 0x3a);
    let entry = Label { address: q.counter, line: lines[i].1 };
    let p2 = spec_pass1_step(q, lines[i].0, lines[i].1)->Ok_0;
    lemma_sym_lookup_push(q.symbols, name, (name, entry));
    assert(spec_sym_lookup(p2.symbols, name) == Some(entry));
    assert(tailseq.drop_first() =~= lines.skip(i + 1));
    lemma_fold_preserves_symbol(p2, tailseq.drop_first(), name);
}

/// The forward-reference guarantee of the two passes: when pass 1
/// succeeds, the name of every definition line — a label or a well-formed
/// `.equ` — is in the finished symbol table, wherever in the source the
/// line stands. Pass 2 resolves a symbol use through that table alone, so
/// a use before the definition line resolves to the recorded address.
pub proof fn lemma_definition_resolves(lines: Seq<(Seq<u8>, u16)>, i: int)
    requires
        spec_pass1(lines) is Ok,
        0 <= i < lines.len(),
        spec_def_name(lines[i].0) is Some,
    ensures
        spec_sym_lookup(
            spec_pass1(lines)->Ok_0.symbols,
            spec_def_name(lines[i].0)->Some_0,
        ) is Some,
{
    lemma_fold_label_defined(spec_initial_program(), lines, i);
}

/// Duplicate rejection: a run of pass 1 that succeeds never saw the same
/// name defined twice, whatever the order of the two definitions — so
/// redefining a label or `.equ` name anywhere makes pass 1 fail.
pub proof fn lemma_no_duplicate_definitions(lines: Seq<(Seq<u8>, u16)>, i: int, j: int)
    requires
        spec_pass1(lines) is Ok,
        0 <= i < lines.len(),
        0 <= j < lines.len(),
        i != j,
        spec_def_name(lines[i].0) is Some,
        spec_def_name(lines[j].0) is Some,
    ensures
        spec_def_name(lines[i].0) != spec_def_name(lines[j].0),
{
    if i < j {
        lemma_fold_no_duplicates(spec_initial_program(), lines, i, j);
    } else {
        lemma_fold_no_duplicates(spec_initial_program(), lines, j, i);
        assert(spec_def_name(lines[j].0) != spec_def_name(lines[i].0));
    }
}

/// The same law read forwards: a source whose lines define the same name
/// twice cannot pass pass 1, whatever the order of the two definitions.
pub proof fn lemma_duplicate_definition_fails(lines: Seq<(Seq<u8>, u16)>, i: int, j: int)
    requires
        0 <= i < lines.len(),
        0 <= j < lines.len(),
        i != j,
        spec_def_name(lines[i].0) is Some,
        spec_def_name(lines[i].0) == spec_def_name(lines[j].0),
    ensures
        spec_pass1(lines) is Err,
{
    if spec_pass1(lines) is Ok {
        lemma_no_duplicate_definitions(lines, i, j);
    }
}

} // verus!
