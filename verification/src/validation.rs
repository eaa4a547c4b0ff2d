//! Pure validation helpers shared by the wizard and the transaction flow.
//!
//! [`parse_amount`] turns human-entered text into a minor-unit integer
//! (1 whole unit = [`SOMPI_PER_KASPA`] sompi, the asset's eight-decimal minor
//! unit); empty text is `Ok(None)` so the caller decides whether that is an
//! error.  [`validate_address`] parses text as an address and compares the
//! network embedded in its prefix against the expected one; every outcome is
//! representable, nothing is thrown.

use vstd::prelude::*;

verus! {

/// Number of sompi (minor units) in one whole unit of the asset.
pub const SOMPI_PER_KASPA: u64 = 100_000_000;

/// The network a well-formed address belongs to, as named by its prefix.
#[derive(Clone, Copy, Debug, PartialEq, Eq, Structural)]
pub enum NetworkType {
    Mainnet,
    Testnet,
    Devnet,
    Simnet,
}

/// Outcome of validating a destination address against an expected network.
#[derive(Clone, Debug, PartialEq)]
pub enum AddressStatus {
    /// No address has been validated yet.
    NotChecked,
    /// The text is a well-formed address on the expected network.
    Valid,
    /// The text is a well-formed address, but on the named other network.
    NetworkMismatch(NetworkType),
    /// The text is not a well-formed address; the reason is display text.
    Invalid(String),
}

/// Why amount text failed to parse.
#[derive(Clone, Copy, Debug, PartialEq, Eq, Structural)]
pub enum ParseError {
    /// The text is not a decimal number.
    Malformed,
    /// The text is a decimal number whose minor-unit value exceeds `u64::MAX`.
    Overflow,
}

/// An ASCII decimal digit.
pub open spec fn is_digit(c: char) -> bool {
    '0' <= c && c <= '9'
}

/// The numeric value of one digit.
pub open spec fn digit_val(c: char) -> int {
    c as int - '0' as int
}

/// Every character of `s` is a digit.
pub open spec fn all_digits(s: Seq<char>) -> bool {
    forall|i: int| 0 <= i < s.len() ==> is_digit(s[i])
}

/// The value of a digit string read in base ten.
pub open spec fn digits_val(s: Seq<char>) -> int
    decreases s.len(),
{
    if s.len() == 0 {
        0
    } else {
        digits_val(s.drop_last()) * 10 + digit_val(s.last())
    }
}

/// Ten to the `n`th power.
pub open spec fn pow10(n: nat) -> int
    decreases n,
{
    if n == 0 {
        1
    } else {
        10 * pow10((n - 1) as nat)
    }
}

/// Whitespace stripped from both ends of amount text before parsing.
pub open spec fn is_amount_space(c: char) -> bool {
    c == ' ' || c == '\t' || c == '\n' || c == '\r'
}

/// `s` without leading whitespace.
pub open spec fn trim_front(s: Seq<char>) -> Seq<char>
    decreases s.len(),
{
    if s.len() > 0 && is_amount_space(s[0]) {
        trim_front(s.drop_first())
    } else {
        s
    }
}

/// `s` without trailing whitespace.
pub open spec fn trim_back(s: Seq<char>) -> Seq<char>
    decreases s.len(),
{
    if s.len() > 0 && is_amount_space(s.last()) {
        trim_back(s.drop_last())
    } else {
        s
    }
}

/// `s` without leading or trailing whitespace.
pub open spec fn trimmed(s: Seq<char>) -> Seq<char> {
    trim_back(trim_front(s))
}

/// Index of the first `.` in `s`, or `-1` if there is none.
pub open spec fn dot_index(s: Seq<char>) -> int
    decreases s.len(),
{
    if s.len() == 0 {
        -1
    } else if s[0] == '.' {
        0
    } else if dot_index(s.drop_first()) < 0 {
        -1
    } else {
        dot_index(s.drop_first()) + 1
    }
}

/// The minor-unit value of trimmed, non-empty amount text, or `None` if the
/// text is not a decimal number.  An integer string means whole units; digits
/// after a single `.` are fractional, scaled to eight decimal places, with
/// places beyond the eighth truncated.
pub open spec fn amount_value(t: Seq<char>) -> Option<int> {
    if dot_index(t) < 0 {
        if t.len() > 0 && all_digits(t) {
            Some(digits_val(t) * SOMPI_PER_KASPA)
        } else {
            None
        }
    } else {
        let d = dot_index(t);
        let int_part = t.take(d);
        let dec_part = t.skip(d + 1);
        let dec_used = if dec_part.len() <= 8 {
            dec_part
        } else {
            dec_part.take(8)
        };
        let scale = if dec_part.len() >= 8 {
            1
        } else {
            pow10((8 - dec_part.len()) as nat)
        };
        if int_part.len() > 0 && all_digits(int_part) && all_digits(dec_used) {
            Some(digits_val(int_part) * SOMPI_PER_KASPA + digits_val(dec_used) * scale)
        } else {
            None
        }
    }
}

/// What `parse_amount` returns on any text: `Ok(None)` when nothing but
/// whitespace was entered, `Ok(Some(v))` for a decimal number worth `v` minor
/// units, and otherwise which of the two errors occurred.
pub open spec fn parse_amount_spec(s: Seq<char>) -> Result<Option<u64>, ParseError> {
    let t = trimmed(s);
    if t.len() == 0 {
        Ok(None)
    } else {
        match amount_value(t) {
            Option::None => Err(ParseError::Malformed),
            Option::Some(v) => if v <= u64::MAX {
                Ok(Some(v as u64))
            } else {
                Err(ParseError::Overflow)
            },
        }
    }
}

/// The value of a digit string is never negative.
proof fn lemma_digits_val_nonneg(s: Seq<char>)
    requires
        all_digits(s),
    ensures
        digits_val(s) >= 0,
    decreases s.len(),
{
    if s.len() > 0 {
        lemma_digits_val_nonneg(s.drop_last());
    }
}

/// A digit string of length `n` is worth less than ten to the `n`.
proof fn lemma_digits_val_bound(s: Seq<char>)
    requires
        all_digits(s),
    ensures
        0 <= digits_val(s) < pow10(s.len() as nat),
    decreases s.len(),
{
    if s.len() > 0 {
        lemma_digits_val_bound(s.drop_last());
        assert(digits_val(s.drop_last()) * 10 + digit_val(s.last()) < pow10(
            (s.len() - 1) as nat,
        ) * 10) by (nonlinear_arith)
            requires
                digits_val(s.drop_last()) < pow10((s.len() - 1) as nat),
                digit_val(s.last()) < 10,
        ;
    }
}

/// A digit string worth more than the ceiling stays above it when a digit is
/// appended.
proof fn lemma_digits_val_grows(s: Seq<char>, bound: int)
    requires
        s.len() > 0,
        all_digits(s),
        digits_val(s.drop_last()) > bound,
        bound >= 0,
    ensures
        digits_val(s) > bound,
{
    let v = digits_val(s.drop_last());
    assert(v * 10 >= v) by (nonlinear_arith)
        requires
            v >= 0,
    ;
    assert(digit_val(s.last()) >= 0);
}

/// Reads the digit string `text[from..to]` in base ten: `Malformed` on any
/// non-digit, `Overflow` when the value does not fit in a `u64`.  An empty
/// range is worth zero.
fn parse_digits(text: &str, from: usize, to: usize) -> (r: Result<u64, ParseError>)
    requires
        from <= to <= text@.len(),
    ensures
        r == (if !all_digits(text@.subrange(from as int, to as int)) {
            Err::<u64, ParseError>(ParseError::Malformed)
        } else if digits_val(text@.subrange(from as int, to as int)) > u64::MAX {
            Err::<u64, ParseError>(ParseError::Overflow)
        } else {
            Ok::<u64, ParseError>(digits_val(text@.subrange(from as int, to as int)) as u64)
        }),
{
    let ghost s = text@.subrange(from as int, to as int);
    let mut acc: u64 = 0;
    let mut overflowed = false;
    let mut i: usize = from;
    proof {
        assert(s.take(0) =~= Seq::<char>::empty());
    }
    while i < to
        invariant
            from <= i <= to <= text@.len(),
            s == text@.subrange(from as int, to as int),
            all_digits(s.take(i - from)),
            !overflowed ==> acc == digits_val(s.take(i - from)),
            overflowed ==> digits_val(s.take(i - from)) > u64::MAX,
        decreases to - i,
    {
        let c = text.get_char(i);
        proof {
            assert(s[i - from] == text@[i as int]);
        }
        if c < '0' || c > '9' {
            return Err(ParseError::Malformed);
        }
        let d: u64 = (c as u32 as u64) - 48;
        let ghost prefix = s.take(i - from);
        let ghost next = s.take(i + 1 - from);
        proof {
            assert(next.drop_last() =~= prefix);
            assert(next.last() == s[i - from]);
            assert(digits_val(next) == digits_val(prefix) * 10 + digit_val(s[i - from]));
        }
        if overflowed {
            proof {
                lemma_digits_val_grows(next, u64::MAX as int);
            }
        } else {
            match acc.checked_mul(10) {
                Some(shifted) => match shifted.checked_add(d) {
                    Some(sum) => {
                        acc = sum;
                    },
                    Option::None => {
                        overflowed = true;
                    },
                },
                Option::None => {
                    overflowed = true;
                },
            }
        }
        i = i + 1;
    }
    proof {
        assert(s.take(to - from) =~= s);
    }
    if overflowed {
        Err(ParseError::Overflow)
    } else {
        Ok(acc)
    }
}

/// Exec mirror of [`is_amount_space`].
fn amount_space(c: char) -> (r: bool)
    ensures
        r == is_amount_space(c),
{
    c == ' ' || c == '\t' || c == '\n' || c == '\r'
}

/// Dropping `i` leading spaces does not change what trimming the front keeps.
proof fn lemma_trim_front_skip(s: Seq<char>, i: int)
    requires
        0 <= i <= s.len(),
        forall|j: int| 0 <= j < i ==> is_amount_space(s[j]),
    ensures
        trim_front(s) == trim_front(s.skip(i)),
    decreases i,
{
    if i == 0 {
        assert(s.skip(0) =~= s);
    } else {
        assert(s.drop_first() =~= s.skip(1));
        lemma_trim_front_skip(s.skip(1), i - 1);
        assert(s.skip(1).skip(i - 1) =~= s.skip(i));
    }
}

/// Dropping trailing spaces beyond `k` does not change what trimming the back
/// keeps.
proof fn lemma_trim_back_take(u: Seq<char>, k: int)
    requires
        0 <= k <= u.len(),
        forall|j: int| k <= j < u.len() ==> is_amount_space(u[j]),
    ensures
        trim_back(u) == trim_back(u.take(k)),
    decreases u.len() - k,
{
    if k == u.len() {
        assert(u.take(k) =~= u);
    } else {
        assert(u.drop_last() =~= u.take(u.len() - 1));
        lemma_trim_back_take(u.take(u.len() - 1), k);
        assert(u.take(u.len() - 1).take(k) =~= u.take(k));
    }
}

/// A dot at `k` with none before it is the first dot.
proof fn lemma_dot_index_first(t: Seq<char>, k: int)
    requires
        0 <= k < t.len(),
        t[k] == '.',
        forall|j: int| 0 <= j < k ==> t[j] != '.',
    ensures
        dot_index(t) == k,
    decreases k,
{
    if k > 0 {
        lemma_dot_index_first(t.drop_first(), k - 1);
    }
}

/// A string without a dot has no dot index.
proof fn lemma_dot_index_none(t: Seq<char>)
    requires
        forall|j: int| 0 <= j < t.len() ==> t[j] != '.',
    ensures
        dot_index(t) == -1,
    decreases t.len(),
{
    if t.len() > 0 {
        lemma_dot_index_none(t.drop_first());
    }
}

/// Ten to the `a`th times ten to the `b`th is ten to the `a + b`th.
proof fn lemma_pow10_mul(a: nat, b: nat)
    ensures
        pow10(a) * pow10(b) == pow10(a + b),
    decreases a,
{
    if a == 0 {
        assert(1 * pow10(b) == pow10(b)) by (nonlinear_arith);
    } else {
        lemma_pow10_mul((a - 1) as nat, b);
        assert((10 * pow10((a - 1) as nat)) * pow10(b) == 10 * (pow10((a - 1) as nat) * pow10(
            b,
        ))) by (nonlinear_arith);
    }
}

/// The first nine powers of ten, spelled out for the proofs that scale
/// fractional digits.
proof fn lemma_pow10_values()
    ensures
        pow10(0) == 1,
        pow10(1) == 10,
        pow10(2) == 100,
        pow10(3) == 1000,
        pow10(4) == 10000,
        pow10(5) == 100000,
        pow10(6) == 1000000,
        pow10(7) == 10000000,
        pow10(8) == 100000000,
{
    assert(pow10(0) == 1);
    assert(pow10(1) == 10);
    assert(pow10(2) == 100);
    assert(pow10(3) == 1000);
    assert(pow10(4) == 10000);
    assert(pow10(5) == 100000);
    assert(pow10(6) == 1000000);
    assert(pow10(7) == 10000000);
    assert(pow10(8) == 100000000);
}

/// Index of the first non-space character, or the length if there is none.
fn first_non_space(text: &str) -> (r: usize)
    ensures
        r <= text@.len(),
        forall|j: int| 0 <= j < r ==> is_amount_space(text@[j]),
        r < text@.len() ==> !is_amount_space(text@[r as int]),
{
    let n = text.unicode_len();
    let mut i: usize = 0;
    while i < n
        invariant
            i <= n,
            n == text@.len(),
            forall|j: int| 0 <= j < i ==> is_amount_space(text@[j]),
        decreases n - i,
    {
        if !amount_space(text.get_char(i)) {
            return i;
        }
        i = i + 1;
    }
    n
}

/// One past the last non-space character at or after `start`, or `start` if
/// all of the rest is spaces.
fn scan_back(text: &str, start: usize) -> (end: usize)
    requires
        start <= text@.len(),
    ensures
        start <= end <= text@.len(),
        forall|j: int| end <= j < text@.len() ==> is_amount_space(text@[j]),
        end > start ==> !is_amount_space(text@[end - 1]),
{
    let n = text.unicode_len();
    let mut end: usize = n;
    while end > start
        invariant
            start <= end <= n,
            n == text@.len(),
            forall|j: int| end <= j < text@.len() ==> is_amount_space(text@[j]),
        decreases end,
    {
        if !amount_space(text.get_char(end - 1)) {
            return end;
        }
        end = end - 1;
    }
    start
}

/// First `.` in `text[from..to]`, if any.
fn find_dot(text: &str, from: usize, to: usize) -> (r: Option<usize>)
    requires
        from <= to <= text@.len(),
    ensures
        match r {
            Some(d) => from <= d < to && text@[d as int] == '.' && forall|j: int|
                from <= j < d ==> text@[j] != '.',
            None => forall|j: int| from <= j < to ==> text@[j] != '.',
        },
{
    let mut i: usize = from;
    while i < to
        invariant
            from <= i <= to <= text@.len(),
            forall|j: int| from <= j < i ==> text@[j] != '.',
        decreases to - i,
    {
        if text.get_char(i) == '.' {
            return Some(i);
        }
        i = i + 1;
    }
    None
}

/// Ten to the `k`th power as a machine integer.
fn pow10_exec(k: usize) -> (r: u64)
    requires
        k <= 8,
    ensures
        r == pow10(k as nat),
{
    proof {
        lemma_pow10_values();
    }
    match k {
        0 => 1,
        1 => 10,
        2 => 100,
        3 => 1000,
        4 => 10000,
        5 => 100000,
        6 => 1000000,
        7 => 10000000,
        _ => 100000000,
    }
}

/// Parses amount text into sompi, the asset's minor unit.
///
/// Text of nothing but whitespace yields `Ok(None)`: whether an empty amount
/// is an error is the caller's decision.  A decimal number, with up to eight
/// fractional digits honoured and further places truncated, yields its value
/// in sompi.  Anything else yields `Err`, and so does a value that does not
/// fit in 64 bits.
pub fn parse_amount(text: &str) -> (r: Result<Option<u64>, ParseError>)
    ensures
        r == parse_amount_spec(text@),
{
    let n = text.unicode_len();
    let start = first_non_space(text);
    let end = scan_back(text, start);
    let ghost t = text@.subrange(start as int, end as int);
    proof {
        lemma_trim_front_skip(text@, start as int);
        if start == n {
            assert(text@.skip(start as int) =~= Seq::<char>::empty());
            assert(t =~= Seq::<char>::empty());
        } else {
            let u = text@.skip(start as int);
            assert(u[0] == text@[start as int]);
            assert(trim_front(text@) == u);
            lemma_trim_back_take(u, end - start);
            assert(u.take(end - start) =~= t);
            if end > start {
                assert(t.last() == text@[end - 1]);
            }
        }
        assert(trimmed(text@) == t);
    }
    if start == end {
        return Ok(None);
    }
    match find_dot(text, start, end) {
        Some(d) => {
            proof {
                assert(t[d - start] == text@[d as int]);
                assert(forall|j: int| 0 <= j < d - start ==> t[j] == text@[j + start]);
                lemma_dot_index_first(t, d - start);
            }
            let ghost int_part = t.take(d - start);
            let ghost dec_part = t.skip(d - start + 1);
            proof {
                assert(int_part =~= text@.subrange(start as int, d as int));
            }
            if d == start {
                return Err(ParseError::Malformed);
            }
            let dec_len = end - d - 1;
            let dec_to = if dec_len <= 8 {
                end
            } else {
                d + 9
            };
            let ghost dec_used = if dec_part.len() <= 8 {
                dec_part
            } else {
                dec_part.take(8)
            };
            proof {
                assert(dec_used =~= text@.subrange(d + 1, dec_to as int));
            }
            match parse_digits(text, d + 1, dec_to) {
                Err(_) => {
                    // The fractional digits can hold at most eight digits, so
                    // a failure here can only mean a non-digit character.
                    proof {
                        if all_digits(dec_used) {
                            lemma_digits_val_bound(dec_used);
                            lemma_pow10_values();
                        }
                    }
                    Err(ParseError::Malformed)
                },
                Ok(dv) => {
                    proof {
                        lemma_digits_val_bound(dec_used);
                    }
                    let scale = if dec_len >= 8 {
                        1
                    } else {
                        pow10_exec(8 - dec_len)
                    };
                    proof {
                        lemma_pow10_mul(dec_used.len() as nat, (8 - dec_used.len()) as nat);
                        lemma_pow10_values();
                        assert(dv * scale < pow10(8)) by (nonlinear_arith)
                            requires
                                0 <= dv < pow10(dec_used.len() as nat),
                                scale == pow10((8 - dec_used.len()) as nat),
                                pow10(dec_used.len() as nat) * pow10((8 - dec_used.len()) as nat)
                                    == pow10(8),
                                scale >= 1,
                        ;
                        assert(dv * scale >= 0) by (nonlinear_arith)
                            requires
                                dv >= 0 && scale >= 1,
                        ;
                    }
                    let scaled: u64 = dv * scale;
                    match parse_digits(text, start, d) {
                        Err(e) => {
                            proof {
                                if all_digits(int_part) && digits_val(int_part) > u64::MAX {
                                    assert(digits_val(int_part) * SOMPI_PER_KASPA >= digits_val(
                                        int_part,
                                    )) by (nonlinear_arith)
                                        requires
                                            digits_val(int_part) >= 0,
                                    ;
                                }
                            }
                            Err(e)
                        },
                        Ok(iv) => {
                            proof {
                                lemma_digits_val_nonneg(int_part);
                            }
                            match iv.checked_mul(SOMPI_PER_KASPA) {
                                Some(base) => match base.checked_add(scaled) {
                                    Some(total) => Ok(Some(total)),
                                    Option::None => Err(ParseError::Overflow),
                                },
                                Option::None => {
                                    proof {
                                        assert(iv * SOMPI_PER_KASPA + digits_val(dec_used) * scale
                                            > u64::MAX);
                                    }
                                    Err(ParseError::Overflow)
                                },
                            }
                        },
                    }
                },
            }
        },
        None => {
            proof {
                assert(forall|j: int| 0 <= j < t.len() ==> t[j] == text@[j + start]);
                lemma_dot_index_none(t);
            }
            match parse_digits(text, start, end) {
                Err(e) => {
                    proof {
                        if all_digits(t) && digits_val(t) > u64::MAX {
                            assert(digits_val(t) * SOMPI_PER_KASPA >= digits_val(t))
                                by (nonlinear_arith)
                                requires
                                    digits_val(t) >= 0,
                            ;
                        }
                    }
                    Err(e)
                },
                Ok(v) => {
                    proof {
                        lemma_digits_val_nonneg(t);
                    }
                    match v.checked_mul(SOMPI_PER_KASPA) {
                        Some(total) => Ok(Some(total)),
                        Option::None => Err(ParseError::Overflow),
                    }
                },
            }
        },
    }
}

/// What the address parser decides about a piece of text: the network named
/// by the prefix of a well-formed address, or nothing for malformed text.
/// The outcome is a function of the text alone.
pub uninterp spec fn address_network_of(s: Seq<char>) -> Option<NetworkType>;

/// Relies on `kaspa_addresses::Address::try_from(&str)`, which returns `Ok`
/// exactly when the text is a well-formed address (known prefix, decodable
/// payload, matching checksum), and on its `prefix` field naming the network
/// the address belongs to.  The parser's error display text is handed back as
/// the reason.
#[verifier::external_body]
fn parse_address_network(text: &str) -> (r: Result<NetworkType, String>)
    ensures
        r is Ok <==> address_network_of(text@) is Some,
        r is Ok ==> Some(r->Ok_0) == address_network_of(text@),
{
    match kaspa_addresses::Address::try_from(text) {
        Ok(address) => Ok(
            match address.prefix {
                kaspa_addresses::Prefix::Mainnet => NetworkType::Mainnet,
                kaspa_addresses::Prefix::Testnet => NetworkType::Testnet,
                kaspa_addresses::Prefix::Simnet => NetworkType::Simnet,
                kaspa_addresses::Prefix::Devnet => NetworkType::Devnet,
            },
        ),
        Err(err) => Err(err.to_string()),
    }
}

/// Parses `text` as an address and compares the network embedded in its
/// prefix against `expected_network`.  Never throws: malformed text is
/// `Invalid` with the parser's reason, a well-formed address on another
/// network is `NetworkMismatch` naming that network, and only a well-formed
/// address on the expected network is `Valid`.
pub fn validate_address(text: &str, expected_network: NetworkType) -> (r: AddressStatus)
    ensures
        match address_network_of(text@) {
            Option::Some(n) => r == (if n == expected_network {
                AddressStatus::Valid
            } else {
                AddressStatus::NetworkMismatch(n)
            }),
            Option::None => r is Invalid,
        },
{
    match parse_address_network(text) {
        Ok(network) => if network == expected_network {
            AddressStatus::Valid
        } else {
            AddressStatus::NetworkMismatch(network)
        },
        Err(reason) => AddressStatus::Invalid(reason),
    }
}

} // verus!
