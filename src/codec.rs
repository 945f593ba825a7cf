use vstd::prelude::*;
use vstd::bytes::{spec_u64_from_le_bytes, spec_u64_to_le_bytes, u64_from_le_bytes, u64_to_le_bytes, lemma_auto_spec_u64_to_from_le_bytes};
use crate::address::Address;
use crate::state::{FaucetConfig, UserClaimedRecord, FaucetInstruction, FaucetError};

verus! {

/// A boolean as one byte.
pub open spec fn bool_byte(b: bool) -> u8 {
    if b { 1u8 } else { 0u8 }
}

/// A signed 64-bit integer as eight little-endian two's-complement bytes.
pub open spec fn i64_bytes(x: i64) -> Seq<u8> {
    spec_u64_to_le_bytes(x as u64)
}

/// Layout of a configuration record: fields in declaration order, fixed width.
pub open spec fn config_bytes(c: FaucetConfig) -> Seq<u8> {
    c.admin@ + c.token_mint@ + spec_u64_to_le_bytes(c.tokens_per_claim) + i64_bytes(c.cooldown_seconds)
        + seq![bool_byte(c.is_active)]
}

/// Layout of a claim record: fields in declaration order, fixed width.
pub open spec fn record_bytes(r: UserClaimedRecord) -> Seq<u8> {
    r.user@ + i64_bytes(r.last_claim_time) + spec_u64_to_le_bytes(r.total_claims)
}

pub const CONFIG_LEN: usize = 81;

pub const RECORD_LEN: usize = 48;

/// The bytes that decode as a configuration record.
pub open spec fn config_well_formed(s: Seq<u8>) -> bool {
    s.len() == CONFIG_LEN && s[80] <= 1
}

/// The bytes that decode as a claim record.
pub open spec fn record_well_formed(s: Seq<u8>) -> bool {
    s.len() == RECORD_LEN
}

/// The configuration record stored in well-formed bytes `s`.
pub open spec fn stored_config(s: Seq<u8>) -> FaucetConfig
    recommends
        config_well_formed(s),
{
    choose|c: FaucetConfig| config_bytes(c) == s
}

/// The claim record stored in well-formed bytes `s`.
pub open spec fn stored_record(s: Seq<u8>) -> UserClaimedRecord
    recommends
        record_well_formed(s),
{
    choose|r: UserClaimedRecord| record_bytes(r) == s
}

/// The `len` bytes of `data` from `start` on.
fn take(data: &[u8], start: usize, len: usize) -> (r: Vec<u8>)
    requires
        start + len <= data@.len(),
    ensures
        r@ == data@.subrange(start as int, start + len),
{
    let n = data.len();
    let mut v: Vec<u8> = Vec::new();
    let mut i: usize = 0;
    while i < len
        invariant
            i <= len,
            n == data@.len(),
            start + len <= data@.len(),
            v@ == data@.subrange(start as int, start + i),
        decreases len - i,
    {
        v.push(data[start + i]);
        i = i + 1;
        assert(v@ =~= data@.subrange(start as int, start + i));
    }
    v
}

fn read_u64(data: &[u8], start: usize) -> (r: u64)
    requires
        start + 8 <= data@.len(),
    ensures
        r == spec_u64_from_le_bytes(data@.subrange(start as int, start + 8)),
{
    let v = take(data, start, 8);
    u64_from_le_bytes(v.as_slice())
}

fn read_address(data: &[u8], start: usize) -> (r: Address)
    requires
        start + 32 <= data@.len(),
    ensures
        r@ == data@.subrange(start as int, start + 32),
{
    let n = data.len();
    let mut bytes: [u8; 32] = [0u8; 32];
    let mut i: usize = 0;
    while i < 32
        invariant
            i <= 32,
            n == data@.len(),
            start + 32 <= data@.len(),
            bytes@.len() == 32,
            forall|j: int| 0 <= j < i ==> bytes@[j] == data@[start + j],
        decreases 32 - i,
    {
        bytes[i] = data[start + i];
        i = i + 1;
    }
    let r = Address { bytes };
    assert(r@ =~= data@.subrange(start as int, start + 32));
    r
}

fn append_u64(out: &mut Vec<u8>, x: u64)
    ensures
        final(out)@ == old(out)@ + spec_u64_to_le_bytes(x),
{
    let mut b = u64_to_le_bytes(x);
    out.append(&mut b);
}

fn append_address(out: &mut Vec<u8>, a: &Address)
    ensures
        final(out)@ == old(out)@ + a@,
{
    let mut b = a.to_vec();
    out.append(&mut b);
}

impl FaucetConfig {
    /// Encodes the record in its stored layout.
    pub fn to_bytes(&self) -> (r: Vec<u8>)
        ensures
            r@ == config_bytes(*self),
    {
        let mut out: Vec<u8> = Vec::new();
        append_address(&mut out, &self.admin);
        append_address(&mut out, &self.token_mint);
        append_u64(&mut out, self.tokens_per_claim);
        append_u64(&mut out, self.cooldown_seconds as u64);
        out.push(if self.is_active { 1u8 } else { 0u8 });
        assert(out@ =~= config_bytes(*self));
        out
    }

    /// Decodes a stored record: exactly the well-formed bytes decode, each to
    /// the record whose encoding it is.
    pub fn from_bytes(data: &[u8]) -> (r: Result<FaucetConfig, FaucetError>)
        ensures
            r is Ok <==> config_well_formed(data@),
            match r {
                Ok(c) => config_bytes(c) == data@ && c == stored_config(data@),
                Err(e) => e == FaucetError::MalformedInput,
            },
    {
        if data.len() != CONFIG_LEN || data[80] > 1 {
            return Err(FaucetError::MalformedInput);
        }
        let admin = read_address(data, 0);
        let token_mint = read_address(data, 32);
        let tokens_per_claim = read_u64(data, 64);
        let cooldown = read_u64(data, 72);
        let c = FaucetConfig {
            admin,
            token_mint,
            tokens_per_claim,
            cooldown_seconds: cooldown as i64,
            is_active: data[80] == 1,
        };
        proof {
            lemma_auto_spec_u64_to_from_le_bytes();
            let s = data@;
            assert(spec_u64_to_le_bytes(spec_u64_from_le_bytes(s.subrange(64, 72))) == s.subrange(64, 72));
            assert(spec_u64_to_le_bytes(spec_u64_from_le_bytes(s.subrange(72, 80))) == s.subrange(72, 80));
            assert((cooldown as i64) as u64 == cooldown) by (bit_vector);
            assert(config_bytes(c) =~= s);
            lemma_config_round_trip(c, stored_config(s));
        }
        Ok(c)
    }
}

impl UserClaimedRecord {
    /// Encodes the record in its stored layout.
    pub fn to_bytes(&self) -> (r: Vec<u8>)
        ensures
            r@ == record_bytes(*self),
    {
        let mut out: Vec<u8> = Vec::new();
        append_address(&mut out, &self.user);
        append_u64(&mut out, self.last_claim_time as u64);
        append_u64(&mut out, self.total_claims);
        assert(out@ =~= record_bytes(*self));
        out
    }

    /// Decodes a stored record: exactly the well-formed bytes decode, each to
    /// the record whose encoding it is.
    pub fn from_bytes(data: &[u8]) -> (r: Result<UserClaimedRecord, FaucetError>)
        ensures
            r is Ok <==> record_well_formed(data@),
            match r {
                Ok(u) => record_bytes(u) == data@ && u == stored_record(data@),
                Err(e) => e == FaucetError::MalformedInput,
            },
    {
        if data.len() != RECORD_LEN {
            return Err(FaucetError::MalformedInput);
        }
        let user = read_address(data, 0);
        let last = read_u64(data, 32);
        let total_claims = read_u64(data, 40);
        let u = UserClaimedRecord { user, last_claim_time: last as i64, total_claims };
        proof {
            lemma_auto_spec_u64_to_from_le_bytes();
            let s = data@;
            assert(spec_u64_to_le_bytes(spec_u64_from_le_bytes(s.subrange(32, 40))) == s.subrange(32, 40));
            assert(spec_u64_to_le_bytes(spec_u64_from_le_bytes(s.subrange(40, 48))) == s.subrange(40, 48));
            assert((last as i64) as u64 == last) by (bit_vector);
            assert(record_bytes(u) =~= s);
            lemma_record_round_trip(u, stored_record(s));
        }
        Ok(u)
    }
}

proof fn lemma_i64_bytes(a: i64, b: i64)
    ensures
        i64_bytes(a).len() == 8,
        i64_bytes(b).len() == 8,
        i64_bytes(a) == i64_bytes(b) ==> a == b,
{
    lemma_auto_spec_u64_to_from_le_bytes();
    if i64_bytes(a) == i64_bytes(b) {
        assert(spec_u64_from_le_bytes(i64_bytes(a)) == a as u64);
        assert(spec_u64_from_le_bytes(i64_bytes(b)) == b as u64);
        assert((a as u64) == (b as u64) ==> a == b) by (bit_vector);
    }
}

proof fn lemma_u64_bytes(a: u64, b: u64)
    ensures
        spec_u64_to_le_bytes(a).len() == 8,
        spec_u64_to_le_bytes(b).len() == 8,
        spec_u64_to_le_bytes(a) == spec_u64_to_le_bytes(b) ==> a == b,
{
    lemma_auto_spec_u64_to_from_le_bytes();
}

/// Every configuration record survives encoding then decoding: its encoding
/// is well-formed, so it decodes, and it is the encoding of no other record,
/// so it decodes to the record itself.
pub proof fn lemma_config_round_trip(c: FaucetConfig, d: FaucetConfig)
    ensures
        config_well_formed(config_bytes(c)),
        config_bytes(d) == config_bytes(c) ==> d == c,
{
    lemma_u64_bytes(c.tokens_per_claim, d.tokens_per_claim);
    lemma_i64_bytes(c.cooldown_seconds, d.cooldown_seconds);
    let s = config_bytes(c);
    assert(s[80] == bool_byte(c.is_active));
    if config_bytes(d) == s {
        let t = config_bytes(d);
        assert(t.subrange(0, 32) =~= d.admin@);
        assert(s.subrange(0, 32) =~= c.admin@);
        assert(t.subrange(32, 64) =~= d.token_mint@);
        assert(s.subrange(32, 64) =~= c.token_mint@);
        assert(t.subrange(64, 72) =~= spec_u64_to_le_bytes(d.tokens_per_claim));
        assert(s.subrange(64, 72) =~= spec_u64_to_le_bytes(c.tokens_per_claim));
        assert(t.subrange(72, 80) =~= i64_bytes(d.cooldown_seconds));
        assert(s.subrange(72, 80) =~= i64_bytes(c.cooldown_seconds));
        assert(t[80] == bool_byte(d.is_active));
        crate::address::lemma_address_ext(c.admin, d.admin);
        crate::address::lemma_address_ext(c.token_mint, d.token_mint);
    }
}

/// Every claim record survives encoding then decoding: its encoding is
/// well-formed, so it decodes, and it is the encoding of no other record, so
/// it decodes to the record itself.
pub proof fn lemma_record_round_trip(r: UserClaimedRecord, q: UserClaimedRecord)
    ensures
        record_well_formed(record_bytes(r)),
        record_bytes(q) == record_bytes(r) ==> q == r,
{
    lemma_i64_bytes(r.last_claim_time, q.last_claim_time);
    lemma_u64_bytes(r.total_claims, q.total_claims);
    let s = record_bytes(r);
    if record_bytes(q) == s {
        let t = record_bytes(q);
        assert(t.subrange(0, 32) =~= q.user@);
        assert(s.subrange(0, 32) =~= r.user@);
        assert(t.subrange(32, 40) =~= i64_bytes(q.last_claim_time));
        assert(s.subrange(32, 40) =~= i64_bytes(r.last_claim_time));
        assert(t.subrange(40, 48) =~= spec_u64_to_le_bytes(q.total_claims));
        assert(s.subrange(40, 48) =~= spec_u64_to_le_bytes(r.total_claims));
        crate::address::lemma_address_ext(r.user, q.user);
    }
}

/// An optional integer: tag `0`, or tag `1` then the value.
pub open spec fn option_u64_bytes(o: Option<u64>) -> Seq<u8> {
    match o {
        None => seq![0u8],
        Some(x) => seq![1u8] + spec_u64_to_le_bytes(x),
    }
}

pub open spec fn option_i64_bytes(o: Option<i64>) -> Seq<u8> {
    match o {
        None => seq![0u8],
        Some(x) => seq![1u8] + i64_bytes(x),
    }
}

pub open spec fn option_bool_bytes(o: Option<bool>) -> Seq<u8> {
    match o {
        None => seq![0u8],
        Some(b) => seq![1u8, bool_byte(b)],
    }
}

/// Wire form of an instruction: the operation's ordinal as one byte, then its
/// fields in declaration order.
pub open spec fn instruction_bytes(i: FaucetInstruction) -> Seq<u8> {
    match i {
        FaucetInstruction::InitializeFaucet { tokens_per_claim, cooldown_seconds } => seq![0u8]
            + spec_u64_to_le_bytes(tokens_per_claim) + i64_bytes(cooldown_seconds),
        FaucetInstruction::ClaimTokens => seq![1u8],
        FaucetInstruction::UpdateFaucetConfig {
            new_tokens_per_claim,
            new_cooldown_seconds,
            new_is_active,
        } => seq![2u8] + option_u64_bytes(new_tokens_per_claim) + option_i64_bytes(
            new_cooldown_seconds,
        ) + option_bool_bytes(new_is_active),
        FaucetInstruction::EmergencyPause => seq![3u8],
    }
}

/// Reads an optional integer at the front of `s`, with what follows it.
pub open spec fn parse_option_u64(s: Seq<u8>) -> Option<(Option<u64>, Seq<u8>)> {
    if s.len() >= 1 && s[0] == 0 {
        Some((None, s.subrange(1, s.len() as int)))
    } else if s.len() >= 9 && s[0] == 1 {
        Some((Some(spec_u64_from_le_bytes(s.subrange(1, 9))), s.subrange(9, s.len() as int)))
    } else {
        None
    }
}

pub open spec fn parse_option_i64(s: Seq<u8>) -> Option<(Option<i64>, Seq<u8>)> {
    match parse_option_u64(s) {
        Some((Some(x), rest)) => Some((Some(x as i64), rest)),
        Some((None, rest)) => Some((None, rest)),
        None => None,
    }
}

pub open spec fn parse_option_bool(s: Seq<u8>) -> Option<(Option<bool>, Seq<u8>)> {
    if s.len() >= 1 && s[0] == 0 {
        Some((None, s.subrange(1, s.len() as int)))
    } else if s.len() >= 2 && s[0] == 1 && s[1] <= 1 {
        Some((Some(s[1] == 1), s.subrange(2, s.len() as int)))
    } else {
        None
    }
}

/// The instruction that `s` encodes, if any: the tag must name an operation,
/// each field must decode, and no byte may be left over.
pub open spec fn parse_instruction(s: Seq<u8>) -> Option<FaucetInstruction> {
    if s.len() == 0 {
        None
    } else if s[0] == 0 {
        if s.len() == 17 {
            Some(
                FaucetInstruction::InitializeFaucet {
                    tokens_per_claim: spec_u64_from_le_bytes(s.subrange(1, 9)),
                    cooldown_seconds: spec_u64_from_le_bytes(s.subrange(9, 17)) as i64,
                },
            )
        } else {
            None
        }
    } else if s[0] == 1 {
        if s.len() == 1 {
            Some(FaucetInstruction::ClaimTokens)
        } else {
            None
        }
    } else if s[0] == 2 {
        match parse_option_u64(s.subrange(1, s.len() as int)) {
            Some((a, r1)) => match parse_option_i64(r1) {
                Some((b, r2)) => match parse_option_bool(r2) {
                    Some((c, r3)) => if r3.len() == 0 {
                        Some(
                            FaucetInstruction::UpdateFaucetConfig {
                                new_tokens_per_claim: a,
                                new_cooldown_seconds: b,
                                new_is_active: c,
                            },
                        )
                    } else {
                        None
                    },
                    None => None,
                },
                None => None,
            },
            None => None,
        }
    } else if s[0] == 3 {
        if s.len() == 1 {
            Some(FaucetInstruction::EmergencyPause)
        } else {
            None
        }
    } else {
        None
    }
}

fn read_option_u64(data: &[u8], pos: usize) -> (r: Option<(Option<u64>, usize)>)
    requires
        pos <= data@.len(),
    ensures
        match r {
            Some((v, next)) => pos < next <= data@.len() && parse_option_u64(
                data@.subrange(pos as int, data@.len() as int),
            ) == Some((v, data@.subrange(next as int, data@.len() as int))),
            None => parse_option_u64(data@.subrange(pos as int, data@.len() as int)) is None,
        },
{
    let ghost s = data@.subrange(pos as int, data@.len() as int);
    let n = data.len();
    if pos < n && data[pos] == 0 {
        assert(s.subrange(1, s.len() as int) =~= data@.subrange(pos + 1, n as int));
        Some((None, pos + 1))
    } else if pos < n && n - pos >= 9 && data[pos] == 1 {
        let x = read_u64(data, pos + 1);
        assert(s.subrange(1, 9) =~= data@.subrange(pos + 1, pos + 9));
        assert(s.subrange(9, s.len() as int) =~= data@.subrange(pos + 9, n as int));
        Some((Some(x), pos + 9))
    } else {
        None
    }
}

fn read_option_bool(data: &[u8], pos: usize) -> (r: Option<(Option<bool>, usize)>)
    requires
        pos <= data@.len(),
    ensures
        match r {
            Some((v, next)) => pos < next <= data@.len() && parse_option_bool(
                data@.subrange(pos as int, data@.len() as int),
            ) == Some((v, data@.subrange(next as int, data@.len() as int))),
            None => parse_option_bool(data@.subrange(pos as int, data@.len() as int)) is None,
        },
{
    let ghost s = data@.subrange(pos as int, data@.len() as int);
    let n = data.len();
    if pos < n && data[pos] == 0 {
        assert(s.subrange(1, s.len() as int) =~= data@.subrange(pos + 1, n as int));
        Some((None, pos + 1))
    } else if pos < n && n - pos >= 2 && data[pos] == 1 && data[pos + 1] <= 1 {
        assert(s.subrange(2, s.len() as int) =~= data@.subrange(pos + 2, n as int));
        Some((Some(data[pos + 1] == 1), pos + 2))
    } else {
        None
    }
}

impl FaucetInstruction {
    /// Decodes instruction bytes; malformed bytes are rejected.
    pub fn try_from_slice(data: &[u8]) -> (r: Result<FaucetInstruction, FaucetError>)
        ensures
            r == match parse_instruction(data@) {
                Some(i) => Ok::<FaucetInstruction, FaucetError>(i),
                None => Err(FaucetError::MalformedInput),
            },
    {
        let n = data.len();
        if n == 0 {
            return Err(FaucetError::MalformedInput);
        }
        let tag = data[0];
        if tag == 0 {
            if n != 17 {
                return Err(FaucetError::MalformedInput);
            }
            let tokens_per_claim = read_u64(data, 1);
            let cooldown = read_u64(data, 9);
            Ok(FaucetInstruction::InitializeFaucet { tokens_per_claim, cooldown_seconds: cooldown as i64 })
        } else if tag == 1 {
            if n != 1 {
                return Err(FaucetError::MalformedInput);
            }
            Ok(FaucetInstruction::ClaimTokens)
        } else if tag == 2 {
            let ghost s = data@;
            assert(s.subrange(1, n as int).subrange(0, (n - 1) as int) =~= s.subrange(1, n as int));
            match read_option_u64(data, 1) {
                None => Err(FaucetError::MalformedInput),
                Some((a, p1)) => match read_option_u64(data, p1) {
                    None => Err(FaucetError::MalformedInput),
                    Some((b, p2)) => match read_option_bool(data, p2) {
                        None => Err(FaucetError::MalformedInput),
                        Some((c, p3)) => {
                            if p3 != n {
                                return Err(FaucetError::MalformedInput);
                            }
                            let b_signed: Option<i64> = match b {
                                Some(x) => Some(x as i64),
                                None => None,
                            };
                            Ok(
                                FaucetInstruction::UpdateFaucetConfig {
                                    new_tokens_per_claim: a,
                                    new_cooldown_seconds: b_signed,
                                    new_is_active: c,
                                },
                            )
                        },
                    },
                },
            }
        } else if tag == 3 {
            if n != 1 {
                return Err(FaucetError::MalformedInput);
            }
            Ok(FaucetInstruction::EmergencyPause)
        } else {
            Err(FaucetError::MalformedInput)
        }
    }
}

fn append_option_u64(out: &mut Vec<u8>, o: Option<u64>)
    ensures
        final(out)@ == old(out)@ + option_u64_bytes(o),
{
    match o {
        None => {
            out.push(0u8);
            assert(final(out)@ =~= old(out)@ + option_u64_bytes(o));
        },
        Some(x) => {
            out.push(1u8);
            append_u64(out, x);
            assert(final(out)@ =~= old(out)@ + option_u64_bytes(o));
        },
    }
}

fn append_option_bool(out: &mut Vec<u8>, o: Option<bool>)
    ensures
        final(out)@ == old(out)@ + option_bool_bytes(o),
{
    match o {
        None => {
            out.push(0u8);
            assert(final(out)@ =~= old(out)@ + option_bool_bytes(o));
        },
        Some(b) => {
            out.push(1u8);
            out.push(if b { 1u8 } else { 0u8 });
            assert(final(out)@ =~= old(out)@ + option_bool_bytes(o));
        },
    }
}

impl FaucetInstruction {
    /// Encodes the instruction in its wire form.
    pub fn to_bytes(&self) -> (r: Vec<u8>)
        ensures
            r@ == instruction_bytes(*self),
    {
        let mut out: Vec<u8> = Vec::new();
        match self {
            FaucetInstruction::InitializeFaucet { tokens_per_claim, cooldown_seconds } => {
                out.push(0u8);
                append_u64(&mut out, *tokens_per_claim);
                append_u64(&mut out, *cooldown_seconds as u64);
            },
            FaucetInstruction::ClaimTokens => {
                out.push(1u8);
            },
            FaucetInstruction::UpdateFaucetConfig {
                new_tokens_per_claim,
                new_cooldown_seconds,
                new_is_active,
            } => {
                out.push(2u8);
                append_option_u64(&mut out, *new_tokens_per_claim);
                let cooldown: Option<u64> = match new_cooldown_seconds {
                    Some(x) => Some(*x as u64),
                    None => None,
                };
                append_option_u64(&mut out, cooldown);
                assert(option_u64_bytes(cooldown) == option_i64_bytes(*new_cooldown_seconds));
                append_option_bool(&mut out, *new_is_active);
            },
            FaucetInstruction::EmergencyPause => {
                out.push(3u8);
            },
        }
        assert(out@ =~= instruction_bytes(*self));
        out
    }
}

proof fn lemma_option_u64_round_trip(o: Option<u64>, rest: Seq<u8>)
    ensures
        parse_option_u64(option_u64_bytes(o) + rest) == Some((o, rest)),
{
    lemma_auto_spec_u64_to_from_le_bytes();
    let s = option_u64_bytes(o) + rest;
    match o {
        None => {
            assert(s.subrange(1, s.len() as int) =~= rest);
        },
        Some(x) => {
            assert(s.subrange(1, 9) =~= spec_u64_to_le_bytes(x));
            assert(s.subrange(9, s.len() as int) =~= rest);
        },
    }
}

proof fn lemma_option_i64_round_trip(o: Option<i64>, rest: Seq<u8>)
    ensures
        parse_option_i64(option_i64_bytes(o) + rest) == Some((o, rest)),
{
    match o {
        None => {
            lemma_option_u64_round_trip(None, rest);
        },
        Some(x) => {
            lemma_option_u64_round_trip(Some(x as u64), rest);
            assert(((x as u64) as i64) == x) by (bit_vector);
        },
    }
}

proof fn lemma_option_bool_round_trip(o: Option<bool>, rest: Seq<u8>)
    ensures
        parse_option_bool(option_bool_bytes(o) + rest) == Some((o, rest)),
{
    let s = option_bool_bytes(o) + rest;
    match o {
        None => {
            assert(s.subrange(1, s.len() as int) =~= rest);
        },
        Some(b) => {
            assert(s.subrange(2, s.len() as int) =~= rest);
        },
    }
}

proof fn lemma_option_u64_canonical(s: Seq<u8>)
    ensures
        parse_option_u64(s) matches Some((o, rest)) ==> s == option_u64_bytes(o) + rest,
{
    lemma_auto_spec_u64_to_from_le_bytes();
    if let Some((o, rest)) = parse_option_u64(s) {
        if s[0] == 1 {
            assert(spec_u64_to_le_bytes(spec_u64_from_le_bytes(s.subrange(1, 9))) == s.subrange(1, 9));
        }
        assert(s =~= option_u64_bytes(o) + rest);
    }
}

proof fn lemma_option_i64_canonical(s: Seq<u8>)
    ensures
        parse_option_i64(s) matches Some((o, rest)) ==> s == option_i64_bytes(o) + rest,
{
    lemma_option_u64_canonical(s);
    if let Some((Some(x), rest)) = parse_option_u64(s) {
        assert(((x as i64) as u64) == x) by (bit_vector);
    }
}

proof fn lemma_option_bool_canonical(s: Seq<u8>)
    ensures
        parse_option_bool(s) matches Some((o, rest)) ==> s == option_bool_bytes(o) + rest,
{
    if let Some((o, rest)) = parse_option_bool(s) {
        assert(s =~= option_bool_bytes(o) + rest);
    }
}

proof fn lemma_update_canonical(s: Seq<u8>)
    requires
        s.len() > 0,
        s[0] == 2,
    ensures
        parse_instruction(s) matches Some(j) ==> instruction_bytes(j) == s,
{
    if let Some(j) = parse_instruction(s) {
        let body = s.subrange(1, s.len() as int);
        lemma_option_u64_canonical(body);
        let (a, r1) = parse_option_u64(body).unwrap();
        lemma_option_i64_canonical(r1);
        let (b, r2) = parse_option_i64(r1).unwrap();
        lemma_option_bool_canonical(r2);
        let (c, r3) = parse_option_bool(r2).unwrap();
        assert(r3 =~= Seq::<u8>::empty());
        assert(r2 =~= option_bool_bytes(c));
        assert(s =~= seq![2u8] + body);
        assert(instruction_bytes(j) =~= seq![2u8] + (option_u64_bytes(a) + (option_i64_bytes(b) + option_bool_bytes(c))));
    }
}

proof fn lemma_initialize_canonical(s: Seq<u8>)
    requires
        s.len() > 0,
        s[0] == 0,
    ensures
        parse_instruction(s) matches Some(j) ==> instruction_bytes(j) == s,
{
    lemma_auto_spec_u64_to_from_le_bytes();
    if let Some(j) = parse_instruction(s) {
        let t = spec_u64_from_le_bytes(s.subrange(9, 17));
        assert(((t as i64) as u64) == t) by (bit_vector);
        assert(spec_u64_to_le_bytes(spec_u64_from_le_bytes(s.subrange(1, 9))) == s.subrange(1, 9));
        assert(spec_u64_to_le_bytes(t) == s.subrange(9, 17));
        assert(instruction_bytes(j) =~= s);
    }
}

proof fn lemma_update_round_trip(a: Option<u64>, b: Option<i64>, c: Option<bool>)
    ensures
        parse_instruction(
            instruction_bytes(
                FaucetInstruction::UpdateFaucetConfig {
                    new_tokens_per_claim: a,
                    new_cooldown_seconds: b,
                    new_is_active: c,
                },
            ),
        ) == Some(
            FaucetInstruction::UpdateFaucetConfig {
                new_tokens_per_claim: a,
                new_cooldown_seconds: b,
                new_is_active: c,
            },
        ),
{
    let i = FaucetInstruction::UpdateFaucetConfig {
        new_tokens_per_claim: a,
        new_cooldown_seconds: b,
        new_is_active: c,
    };
    let e = instruction_bytes(i);
    let r2 = option_bool_bytes(c);
    let r1 = option_i64_bytes(b) + r2;
    assert(e.subrange(1, e.len() as int) =~= option_u64_bytes(a) + r1);
    lemma_option_u64_round_trip(a, r1);
    lemma_option_i64_round_trip(b, r2);
    lemma_option_bool_round_trip(c, Seq::empty());
    assert(r2 =~= r2 + Seq::<u8>::empty());
}

/// Every instruction survives encoding then decoding, and decoding accepts
/// only canonical bytes: whatever decodes re-encodes to the same bytes.
pub proof fn lemma_instruction_round_trip(i: FaucetInstruction, s: Seq<u8>)
    ensures
        parse_instruction(instruction_bytes(i)) == Some(i),
        parse_instruction(s) matches Some(j) ==> instruction_bytes(j) == s,
{
    match i {
        FaucetInstruction::InitializeFaucet { tokens_per_claim, cooldown_seconds } => {
            let e = instruction_bytes(i);
            lemma_auto_spec_u64_to_from_le_bytes();
            assert(e.subrange(1, 9) =~= spec_u64_to_le_bytes(tokens_per_claim));
            assert(e.subrange(9, 17) =~= i64_bytes(cooldown_seconds));
            assert(((cooldown_seconds as u64) as i64) == cooldown_seconds) by (bit_vector);
        },
        FaucetInstruction::UpdateFaucetConfig {
            new_tokens_per_claim,
            new_cooldown_seconds,
            new_is_active,
        } => {
            lemma_update_round_trip(new_tokens_per_claim, new_cooldown_seconds, new_is_active);
        },
        _ => {},
    }
    if s.len() > 0 && s[0] == 0 {
        lemma_initialize_canonical(s);
    } else if s.len() > 0 && s[0] == 2 {
        lemma_update_canonical(s);
    } else if let Some(j) = parse_instruction(s) {
        assert(instruction_bytes(j) =~= s);
    }
}

} // verus!
