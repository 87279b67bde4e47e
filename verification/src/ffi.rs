//! Value types exchanged with the node's storage collaborator, modeled
//! as plain records.  The collaborator itself (account storage behind a
//! C++ interface) stays outside this crate; these types hold exactly the
//! fields its records carry, so the logic that reads them is verified.

use vstd::prelude::*;

verus! {

/// Failures reported across the node interface.
#[derive(PartialEq, Eq, Debug)]
pub enum FFIError {
    DefiChainError(String),
}

/// A token identifier as the node's records carry it.
#[derive(Clone, Copy, PartialEq, Eq, Structural, PartialOrd, Debug)]
pub struct DctId(pub u32);

impl DctId {
    /// A token identifier with the given raw value.
    pub fn new(v: u32) -> (r: Self)
        ensures
            r.0 == v,
    {
        DctId(v)
    }

    /// The raw value of this identifier.
    pub fn value(&self) -> (r: u32)
        ensures
            r == self.0,
    {
        self.0
    }
}

/// A token balance as the node's records carry it: an identifier and an
/// unsigned amount.
#[derive(Clone, Copy, PartialEq, Eq, Structural, Debug)]
pub struct TokenAmount {
    pub id: DctId,
    pub value: u64,
}

impl TokenAmount {
    /// A balance of `amount` units of the token `token_id`.
    pub fn new(token_id: DctId, amount: u64) -> (r: Self)
        ensures
            r.id == token_id,
            r.value == amount,
    {
        TokenAmount { id: token_id, value: amount }
    }

    /// The token this balance belongs to.
    pub fn token_id(&self) -> (r: DctId)
        ensures
            r == self.id,
    {
        self.id
    }

    /// The number of units held.
    pub fn amount(&self) -> (r: u64)
        ensures
            r == self.value,
    {
        self.value
    }
}


/// A serialized script as the node's records carry it: a byte string
/// read at fixed positions and by opcode walking.
#[derive(Clone, PartialEq, Eq, Debug)]
pub struct Script {
    bytes: Vec<u8>,
}

/// Push opcodes at and under this value carry data.
pub const OP_PUSHDATA1: u8 = 0x4c;

/// The last opcode a valid script may contain.
pub const MAX_OPCODE: u8 = 0xb9;

/// The largest data push a valid script element may carry.
pub const MAX_SCRIPT_ELEMENT_SIZE: u32 = 520;

/// The lower-case hex digit of a value below sixteen.
pub open spec fn hex_char(n: int) -> char {
    if n == 0 { '0' } else if n == 1 { '1' } else if n == 2 { '2' } else if n == 3 { '3' }
    else if n == 4 { '4' } else if n == 5 { '5' } else if n == 6 { '6' } else if n == 7 { '7' }
    else if n == 8 { '8' } else if n == 9 { '9' } else if n == 10 { 'a' } else if n == 11 { 'b' }
    else if n == 12 { 'c' } else if n == 13 { 'd' } else if n == 14 { 'e' } else { 'f' }
}

/// The lower-case hex rendering of a byte string, two digits per byte.
pub open spec fn hex_of(s: Seq<u8>) -> Seq<char>
    decreases s.len(),
{
    if s.len() == 0 {
        Seq::empty()
    } else {
        seq![hex_char(s.first() as int / 16), hex_char(s.first() as int % 16)] + hex_of(
            s.drop_first(),
        )
    }
}

/// Whether the script bytes from position `i` on parse as a sequence of
/// valid operations: every opcode is known, every data push is within
/// the element-size bound, and no push runs past the end.
pub open spec fn valid_ops_from(s: Seq<u8>, i: int) -> bool
    decreases s.len() - i,
{
    if i >= s.len() {
        true
    } else {
        let op = s[i];
        if op < OP_PUSHDATA1 {
            let n = op as int;
            i + 1 + n <= s.len() && valid_ops_from(s, i + 1 + n)
        } else if op == OP_PUSHDATA1 {
            let have_len = i + 2 <= s.len();
            have_len && {
                let n = s[i + 1] as int;
                i + 2 + n <= s.len() && valid_ops_from(s, i + 2 + n)
            }
        } else if op == 0x4d {
            let have_len = i + 3 <= s.len();
            have_len && {
                let n = s[i + 1] as int + 256 * (s[i + 2] as int);
                i + 3 + n <= s.len() && valid_ops_from(s, i + 3 + n)
            }
        } else if op == 0x4e {
            let have_len = i + 5 <= s.len();
            have_len && {
                let n = s[i + 1] as int + 256 * (s[i + 2] as int) + 65536 * (s[i + 3] as int)
                    + 16777216 * (s[i + 4] as int);
                n <= MAX_SCRIPT_ELEMENT_SIZE && i + 5 + n <= s.len() && valid_ops_from(
                    s,
                    i + 5 + n,
                )
            }
        } else {
            op <= MAX_OPCODE && valid_ops_from(s, i + 1)
        }
    }
}

fn hex_digit(n: u8) -> (r: &'static str)
    requires
        n < 16,
    ensures
        r@ == seq![hex_char(n as int)],
{
    let r: &'static str = match n {
        0 => "0",
        1 => "1",
        2 => "2",
        3 => "3",
        4 => "4",
        5 => "5",
        6 => "6",
        7 => "7",
        8 => "8",
        9 => "9",
        10 => "a",
        11 => "b",
        12 => "c",
        13 => "d",
        14 => "e",
        _ => "f",
    };
    proof {
        reveal_strlit("0");
        reveal_strlit("1");
        reveal_strlit("2");
        reveal_strlit("3");
        reveal_strlit("4");
        reveal_strlit("5");
        reveal_strlit("6");
        reveal_strlit("7");
        reveal_strlit("8");
        reveal_strlit("9");
        reveal_strlit("a");
        reveal_strlit("b");
        reveal_strlit("c");
        reveal_strlit("d");
        reveal_strlit("e");
        reveal_strlit("f");
        assert(r@ =~= seq![hex_char(n as int)]);
    }
    r
}

impl Script {
    /// The raw bytes of the script.
    pub closed spec fn view(&self) -> Seq<u8> {
        self.bytes@
    }

    /// A script over the given bytes.
    pub fn from_vec(v: Vec<u8>) -> (r: Self)
        ensures
            r@ == v@,
    {
        Script { bytes: v }
    }

    /// The lower-case hex rendering of the script.
    pub fn get_hex(&self) -> (r: String)
        ensures
            r@ == hex_of(self@),
    {
        let mut out = String::new();
        let n = self.bytes.len();
        proof {
            assert(self.bytes@.skip(0) == self.bytes@);
        }
        let mut i: usize = 0;
        while i < n
            invariant
                n == self.bytes@.len(),
                i <= n,
                hex_of(self.bytes@) == out@ + hex_of(self.bytes@.skip(i as int)),
            decreases n - i,
        {
            let b = self.bytes[i];
            out.append(hex_digit(b / 16));
            out.append(hex_digit(b % 16));
            proof {
                assert(self.bytes@.skip(i as int).drop_first() == self.bytes@.skip(i + 1));
            }
            i = i + 1;
        }
        proof {
            assert(out@ =~= hex_of(self.bytes@));
        }
        out
    }

    /// Whether every operation in the script parses and is known.
    pub fn has_valid_ops(&self) -> (r: bool)
        ensures
            r == valid_ops_from(self@, 0),
    {
        let n = self.bytes.len();
        let mut i: usize = 0;
        while i < n
            invariant
                n == self.bytes@.len(),
                i <= n,
                valid_ops_from(self.bytes@, 0) == valid_ops_from(self.bytes@, i as int),
            decreases n - i,
        {
            let op = self.bytes[i];
            if op < OP_PUSHDATA1 {
                let len = op as usize;
                if len > n - (i + 1) {
                    return false;
                }
                i = i + 1 + len;
            } else if op == OP_PUSHDATA1 {
                if n - i < 2 {
                    return false;
                }
                let len = self.bytes[i + 1] as usize;
                if len > n - (i + 2) {
                    return false;
                }
                i = i + 2 + len;
            } else if op == 0x4d {
                if n - i < 3 {
                    return false;
                }
                let len = self.bytes[i + 1] as usize + 256 * (self.bytes[i + 2] as usize);
                if len > n - (i + 3) {
                    return false;
                }
                i = i + 3 + len;
            } else if op == 0x4e {
                if n - i < 5 {
                    return false;
                }
                let len = self.bytes[i + 1] as u32 + 256 * (self.bytes[i + 2] as u32) + 65536
                    * (self.bytes[i + 3] as u32) + 16777216 * (self.bytes[i + 4] as u32);
                if len > MAX_SCRIPT_ELEMENT_SIZE {
                    return false;
                }
                let len = len as usize;
                if len > n - (i + 5) {
                    return false;
                }
                i = i + 5 + len;
            } else {
                if op > MAX_OPCODE {
                    return false;
                }
                i = i + 1;
            }
        }
        true
    }

    /// Whether the script is the fixed 23-byte pay-to-script-hash form.
    pub fn is_pay_to_script_hash(&self) -> (r: bool)
        ensures
            r == (self@.len() == 23 && self@[0] == 0xa9 && self@[1] == 0x14 && self@[22] == 0x87),
    {
        self.bytes.len() == 23 && self.bytes[0] == 0xa9 && self.bytes[1] == 0x14
            && self.bytes[22] == 0x87
    }

    /// Whether the script is the fixed 34-byte pay-to-witness-script-hash
    /// form.
    pub fn is_pay_to_witness_script_hash(&self) -> (r: bool)
        ensures
            r == (self@.len() == 34 && self@[0] == 0x00 && self@[1] == 0x20),
    {
        self.bytes.len() == 34 && self.bytes[0] == 0x00 && self.bytes[1] == 0x20
    }
}

/// The status record the node returns from a call: a success flag, a
/// message, a numeric code and a diagnostic message.
#[derive(PartialEq, Eq, Debug)]
pub struct Res {
    pub ok: bool,
    pub msg: String,
    pub code: u32,
    pub dbg_msg: String,
}

impl Res {
    /// The message carried on success.
    pub fn msg(&self) -> (r: String)
        ensures
            r == self.msg,
    {
        self.msg.clone()
    }

    /// The numeric status code.
    pub fn code(&self) -> (r: u32)
        ensures
            r == self.code,
    {
        self.code
    }

    /// The diagnostic message carried on failure.
    pub fn debug_msg(&self) -> (r: String)
        ensures
            r == self.dbg_msg,
    {
        self.dbg_msg.clone()
    }

    /// Whether the call succeeded.
    pub fn ok(&self) -> (r: bool)
        ensures
            r == self.ok,
    {
        self.ok
    }

    /// A successful record becomes its message; a failed one becomes an
    /// error carrying the diagnostic message.
    pub fn into_result(self) -> (r: Result<String, FFIError>)
        ensures
            self.ok ==> r == Ok::<String, FFIError>(self.msg),
            !self.ok ==> r == Err::<String, FFIError>(FFIError::DefiChainError(self.dbg_msg)),
    {
        if self.ok() {
            Ok(self.msg)
        } else {
            Err(FFIError::DefiChainError(self.dbg_msg))
        }
    }
}

} // verus!
