use bp::LockTime;
use vstd::prelude::*;
use vstd::string::StringExecFns;

use crate::text::{
    decimal, has_prefix, is_lower_ascii, lemma_decimal, lower_of, lowercase, parse_u32,
    parse_u32_text, same_text, starts_with, u32_text, unsigned_body,
};

verus! {

/// Lock-time values below this are block heights, values at or above it are
/// UNIX timestamps.
pub const LOCKTIME_THRESHOLD: u32 = 0x1DCD_6500;

/// Error constructing timelock from the provided value.
#[derive(Copy, Clone, PartialOrd, Ord, PartialEq, Eq, Hash, Debug)]
pub struct InvalidTimelock;

/// Error reading a lock-time value from its text.
#[derive(Clone, PartialEq, Eq, Hash, Debug)]
pub enum ParseError {
    /// The text is not of a form that a lock time is written in.
    InvalidDescriptor(String),
    /// The text names a timestamp that lies in the block-height range.
    InvalidTimestamp(u32),
    /// The text names a block height that lies in the timestamp range.
    InvalidHeight(u32),
    /// The number in the text is not an unsigned 32-bit decimal number.
    InvalidInteger(String),
}

/// What a [`ParseError`] says, with its text as characters.
pub enum ParseErrorModel {
    InvalidDescriptor(Seq<char>),
    InvalidTimestamp(u32),
    InvalidHeight(u32),
    InvalidInteger(Seq<char>),
}

impl View for ParseError {
    type V = ParseErrorModel;

    open spec fn view(&self) -> ParseErrorModel {
        match self {
            ParseError::InvalidDescriptor(s) => ParseErrorModel::InvalidDescriptor(s@),
            ParseError::InvalidTimestamp(n) => ParseErrorModel::InvalidTimestamp(*n),
            ParseError::InvalidHeight(n) => ParseErrorModel::InvalidHeight(*n),
            ParseError::InvalidInteger(s) => ParseErrorModel::InvalidInteger(s@),
        }
    }
}

/// `0` or `none`: the text of a lock that holds at any time.
pub open spec fn is_anytime_text(l: Seq<char>) -> bool {
    l == seq!['0'] || l == seq!['n', 'o', 'n', 'e']
}

/// The text in `l` between its first `open_len` characters and its last
/// character.
pub open spec fn enclosed_number(l: Seq<char>, open_len: int) -> Seq<char> {
    l.subrange(open_len, l.len() - 1)
}

/// A value that a timestamp lock may hold.
pub open spec fn is_timestamp_value(v: u32) -> bool {
    v == 0 || v >= LOCKTIME_THRESHOLD
}

/// A value that a height lock may hold.
pub open spec fn is_height_value(v: u32) -> bool {
    v < LOCKTIME_THRESHOLD
}

pub open spec fn time_open() -> Seq<char> {
    seq!['t', 'i', 'm', 'e', '(']
}

pub open spec fn height_open() -> Seq<char> {
    seq!['h', 'e', 'i', 'g', 'h', 't', '(']
}

/// The lock value that lower-case text `l` gives a timestamp lock, or why it
/// gives none.
pub open spec fn timestamp_from_text(l: Seq<char>) -> Result<u32, ParseErrorModel> {
    if is_anytime_text(l) {
        Ok(0)
    } else if starts_with(l, time_open()) && l.len() > 0 && l.last() == ')' {
        let digits = enclosed_number(l, 5);
        match parse_u32(digits) {
            None => Err(ParseErrorModel::InvalidInteger(digits)),
            Some(n) => if is_timestamp_value(n) {
                Ok(n)
            } else {
                Err(ParseErrorModel::InvalidTimestamp(n))
            },
        }
    } else {
        Err(ParseErrorModel::InvalidDescriptor(l))
    }
}

/// The lock value that lower-case text `l` gives a height lock, or why it
/// gives none.
pub open spec fn height_from_text(l: Seq<char>) -> Result<u32, ParseErrorModel> {
    if is_anytime_text(l) {
        Ok(0)
    } else if starts_with(l, height_open()) && l.len() > 0 && l.last() == ')' {
        let digits = enclosed_number(l, 7);
        match parse_u32(digits) {
            None => Err(ParseErrorModel::InvalidInteger(digits)),
            Some(n) => if is_height_value(n) {
                Ok(n)
            } else {
                Err(ParseErrorModel::InvalidHeight(n))
            },
        }
    } else {
        Err(ParseErrorModel::InvalidDescriptor(l))
    }
}

/// The text of a timestamp lock holding `v`.
pub open spec fn timestamp_text(v: u32) -> Seq<char> {
    if v == 0 {
        seq!['0']
    } else {
        time_open() + decimal(v as nat) + seq![')']
    }
}

/// The text of a height lock holding `v`.
pub open spec fn height_text(v: u32) -> Seq<char> {
    if v == 0 {
        seq!['0']
    } else {
        height_open() + decimal(v as nat) + seq![')']
    }
}

/// Value for a transaction `nTimeLock` field which is guaranteed to represent a
/// UNIX timestamp which is always either 0 or a greater than or equal to
/// 500000000.
#[derive(Copy, Clone, PartialOrd, Ord, PartialEq, Eq, Hash, Debug)]
pub struct LockTimestamp(u32);

/// Value for a transaction `nTimeLock` field which is guaranteed to represent a
/// block height number which is always less than 500000000.
#[derive(Copy, Clone, PartialOrd, Ord, PartialEq, Eq, Hash, Debug)]
pub struct LockHeight(u32);

/// `r` is the timestamp lock that `m` describes, or the error it names.
pub open spec fn timestamp_result_is(
    r: Result<LockTimestamp, ParseError>,
    m: Result<u32, ParseErrorModel>,
) -> bool {
    match r {
        Ok(t) => m == Ok::<u32, ParseErrorModel>(t.value()),
        Err(e) => m == Err::<u32, ParseErrorModel>(e@),
    }
}

/// `r` is the height lock that `m` describes, or the error it names.
pub open spec fn height_result_is(
    r: Result<LockHeight, ParseError>,
    m: Result<u32, ParseErrorModel>,
) -> bool {
    match r {
        Ok(h) => m == Ok::<u32, ParseErrorModel>(h.value()),
        Err(e) => m == Err::<u32, ParseErrorModel>(e@),
    }
}

#[verifier::external_type_specification]
#[verifier::external_body]
pub struct ExLockTime(LockTime);

/// The consensus value that a `LockTime` holds.
pub uninterp spec fn locktime_value(t: LockTime) -> u32;

/// Relies on `LockTime::from_consensus_u32`: the lock time holding `value`.
#[verifier::external_body]
fn locktime_from_u32(value: u32) -> (r: LockTime)
    ensures
        locktime_value(r) == value,
{
    LockTime::from_consensus_u32(value)
}

/// Relies on `LockTime::into_consensus_u32`: the value held.
#[verifier::external_body]
fn locktime_into_u32(t: LockTime) -> (r: u32)
    ensures
        r == locktime_value(t),
{
    t.into_consensus_u32()
}

/// Relies on `SystemTime::now` and `SystemTime::duration_since`: the whole
/// seconds since the UNIX epoch, if the clock is past it.
#[verifier::external_body]
fn unix_time_now() -> (r: Option<u64>) {
    std::time::SystemTime::now().duration_since(std::time::UNIX_EPOCH).ok().map(|d| d.as_secs())
}

impl LockTimestamp {
    #[verifier::type_invariant]
    spec fn inv(self) -> bool {
        is_timestamp_value(self.0)
    }

    /// The consensus value held.
    pub closed spec fn value(self) -> u32 {
        self.0
    }

    /// Create zero time lock
    pub fn anytime() -> (r: Self)
        ensures
            r.value() == 0,
    {
        LockTimestamp(0)
    }

    /// Creates absolute time lock valid since the current timestamp; `None`
    /// where the clock reads before 500000000 or past the `u32` range.
    pub fn since_now() -> (r: Option<Self>)
        ensures
            r matches Some(t) ==> t.value() >= LOCKTIME_THRESHOLD,
    {
        match unix_time_now() {
            Some(secs) => LockTimestamp::from_unix_secs(secs),
            None => None,
        }
    }

    /// Creates absolute time lock from a clock reading in whole seconds since
    /// the UNIX epoch; `None` where it lies below 500000000 or past the `u32`
    /// range.
    pub fn from_unix_secs(secs: u64) -> (r: Option<Self>)
        ensures
            r is Some <==> LOCKTIME_THRESHOLD <= secs <= u32::MAX,
            r matches Some(t) ==> t.value() == secs,
    {
        if secs <= 0xFFFF_FFFF {
            LockTimestamp::from_unix_timestamp(secs as u32)
        } else {
            None
        }
    }

    /// Creates absolute time lock with the given UNIX timestamp value.
    ///
    /// Timestamp value must be greater or equal to `0x1DCD6500`, otherwise
    /// `None` is returned.
    pub fn from_unix_timestamp(timestamp: u32) -> (r: Option<Self>)
        ensures
            r is Some <==> timestamp >= LOCKTIME_THRESHOLD,
            r matches Some(t) ==> t.value() == timestamp,
    {
        if timestamp < LOCKTIME_THRESHOLD {
            None
        } else {
            Some(LockTimestamp(timestamp))
        }
    }

    /// Interprets a consensus lock-time value as a timestamp lock: zero, or a
    /// value from 500000000 on.
    pub fn from_consensus(value: u32) -> (r: Result<Self, InvalidTimelock>)
        ensures
            r is Ok <==> is_timestamp_value(value),
            r matches Ok(t) ==> t.value() == value,
    {
        if value == 0 || value >= LOCKTIME_THRESHOLD {
            Ok(LockTimestamp(value))
        } else {
            Err(InvalidTimelock)
        }
    }

    /// Converts into full u32 representation of `nSeq` value as it is
    /// serialized in bitcoin transaction.
    pub fn into_consensus(self) -> (r: u32)
        ensures
            r == self.value(),
            is_timestamp_value(r),
    {
        proof {
            use_type_invariant(&self);
        }
        self.0
    }

    /// Converts into [`LockTime`] representation.
    pub fn into_locktime(self) -> (r: LockTime)
        ensures
            locktime_value(r) == self.value(),
    {
        locktime_from_u32(self.into_consensus())
    }

    /// Interprets a generic lock time as this kind of lock.
    pub fn from_locktime(lock_time: LockTime) -> (r: Result<Self, InvalidTimelock>)
        ensures
            r is Ok <==> is_timestamp_value(locktime_value(lock_time)),
            r matches Ok(t) ==> t.value() == locktime_value(lock_time),
    {
        LockTimestamp::from_consensus(locktime_into_u32(lock_time))
    }

    /// The text of the lock: `0` for a lock that holds at any time, else
    /// `time(N)`.
    pub fn to_string(&self) -> (r: String)
        ensures
            r@ == timestamp_text(self.value()),
    {
        if self.0 == 0 {
            proof {
                reveal_strlit("0");
            }
            return <String as StringExecFns>::from_str("0");
        }
        proof {
            reveal_strlit("time(");
            reveal_strlit(")");
        }
        let digits = u32_text(self.0);
        let text = <String as StringExecFns>::from_str("time(").concat(digits.as_str()).concat(")");
        text
    }

    /// Reads a lock from text that is already lower case.
    pub fn parse_lowercase(s: &str) -> (r: Result<Self, ParseError>)
        ensures
            timestamp_result_is(r, timestamp_from_text(s@)),
    {
        proof {
            reveal_strlit("0");
            reveal_strlit("none");
            reveal_strlit("time(");
            assert("0"@ =~= seq!['0']);
            assert("none"@ =~= seq!['n', 'o', 'n', 'e']);
            assert("time("@ =~= time_open());
        }
        if same_text(s, "0") || same_text(s, "none") {
            return Ok(LockTimestamp::anytime());
        }
        let n = s.unicode_len();
        if has_prefix(s, "time(") && n > 0 && s.get_char(n - 1) == ')' {
            let digits = s.substring_char(5, n - 1);
            match parse_u32_text(digits) {
                None => Err(ParseError::InvalidInteger(<String as StringExecFns>::from_str(digits))),
                Some(v) => match LockTimestamp::from_consensus(v) {
                    Ok(t) => Ok(t),
                    Err(_) => Err(ParseError::InvalidTimestamp(v)),
                },
            }
        } else {
            Err(ParseError::InvalidDescriptor(<String as StringExecFns>::from_str(s)))
        }
    }

    /// Reads a lock from its text, in any letter case: `0` or `none`, or
    /// `time(N)` with `N` zero or from 500000000 on.
    pub fn parse_str(s: &str) -> (r: Result<Self, ParseError>)
        ensures
            timestamp_result_is(r, timestamp_from_text(lower_of(s@))),
            is_lower_ascii(s@) ==> timestamp_result_is(r, timestamp_from_text(s@)),
    {
        let lower = lowercase(s);
        LockTimestamp::parse_lowercase(lower.as_str())
    }
}

impl LockHeight {
    #[verifier::type_invariant]
    spec fn inv(self) -> bool {
        is_height_value(self.0)
    }

    /// The consensus value held.
    pub closed spec fn value(self) -> u32 {
        self.0
    }

    /// Create zero time lock
    pub fn anytime() -> (r: Self)
        ensures
            r.value() == 0,
    {
        LockHeight(0)
    }

    /// Creates absolute time lock with the given block height.
    ///
    /// Block height must be strictly less than `0x1DCD6500`, otherwise
    /// `None` is returned.
    pub fn from_height(height: u32) -> (r: Option<Self>)
        ensures
            r is Some <==> height < LOCKTIME_THRESHOLD,
            r matches Some(h) ==> h.value() == height,
    {
        if height < LOCKTIME_THRESHOLD {
            Some(LockHeight(height))
        } else {
            None
        }
    }

    /// Interprets a consensus lock-time value as a height lock: a value below
    /// 500000000.
    pub fn from_consensus(value: u32) -> (r: Result<Self, InvalidTimelock>)
        ensures
            r is Ok <==> is_height_value(value),
            r matches Ok(h) ==> h.value() == value,
    {
        if value < LOCKTIME_THRESHOLD {
            Ok(LockHeight(value))
        } else {
            Err(InvalidTimelock)
        }
    }

    /// Converts into full u32 representation of `nSeq` value as it is
    /// serialized in bitcoin transaction.
    pub fn into_consensus(self) -> (r: u32)
        ensures
            r == self.value(),
            is_height_value(r),
    {
        proof {
            use_type_invariant(&self);
        }
        self.0
    }

    /// Converts into [`LockTime`] representation.
    pub fn into_locktime(self) -> (r: LockTime)
        ensures
            locktime_value(r) == self.value(),
    {
        locktime_from_u32(self.into_consensus())
    }

    /// Interprets a generic lock time as this kind of lock.
    pub fn from_locktime(lock_time: LockTime) -> (r: Result<Self, InvalidTimelock>)
        ensures
            r is Ok <==> is_height_value(locktime_value(lock_time)),
            r matches Ok(t) ==> t.value() == locktime_value(lock_time),
    {
        LockHeight::from_consensus(locktime_into_u32(lock_time))
    }

    /// The text of the lock: `0` for a lock that holds at any time, else
    /// `height(N)`.
    pub fn to_string(&self) -> (r: String)
        ensures
            r@ == height_text(self.value()),
    {
        if self.0 == 0 {
            proof {
                reveal_strlit("0");
            }
            return <String as StringExecFns>::from_str("0");
        }
        proof {
            reveal_strlit("height(");
            reveal_strlit(")");
        }
        let digits = u32_text(self.0);
        let text = <String as StringExecFns>::from_str("height(").concat(digits.as_str()).concat(")");
        text
    }

    /// Reads a lock from text that is already lower case.
    pub fn parse_lowercase(s: &str) -> (r: Result<Self, ParseError>)
        ensures
            height_result_is(r, height_from_text(s@)),
    {
        proof {
            reveal_strlit("0");
            reveal_strlit("none");
            reveal_strlit("height(");
            assert("0"@ =~= seq!['0']);
            assert("none"@ =~= seq!['n', 'o', 'n', 'e']);
            assert("height("@ =~= height_open());
        }
        if same_text(s, "0") || same_text(s, "none") {
            return Ok(LockHeight::anytime());
        }
        let n = s.unicode_len();
        if has_prefix(s, "height(") && n > 0 && s.get_char(n - 1) == ')' {
            let digits = s.substring_char(7, n - 1);
            match parse_u32_text(digits) {
                None => Err(ParseError::InvalidInteger(<String as StringExecFns>::from_str(digits))),
                Some(v) => match LockHeight::from_consensus(v) {
                    Ok(h) => Ok(h),
                    Err(_) => Err(ParseError::InvalidHeight(v)),
                },
            }
        } else {
            Err(ParseError::InvalidDescriptor(<String as StringExecFns>::from_str(s)))
        }
    }

    /// Reads a lock from its text, in any letter case: `0` or `none`, or
    /// `height(N)` with `N` below 500000000.
    pub fn parse_str(s: &str) -> (r: Result<Self, ParseError>)
        ensures
            height_result_is(r, height_from_text(lower_of(s@))),
            is_lower_ascii(s@) ==> height_result_is(r, height_from_text(s@)),
    {
        let lower = lowercase(s);
        LockHeight::parse_lowercase(lower.as_str())
    }
}

impl Default for LockTimestamp {
    fn default() -> (r: Self)
        ensures
            r.value() == 0,
    {
        LockTimestamp::anytime()
    }
}

impl Default for LockHeight {
    fn default() -> (r: Self)
        ensures
            r.value() == 0,
    {
        LockHeight::anytime()
    }
}

impl From<LockTimestamp> for u32 {
    fn from(lock_timestamp: LockTimestamp) -> u32 {
        lock_timestamp.into_consensus()
    }
}

impl vstd::std_specs::convert::FromSpecImpl<LockTimestamp> for u32 {
    open spec fn obeys_from_spec() -> bool {
        true
    }

    open spec fn from_spec(v: LockTimestamp) -> u32 {
        v.value()
    }
}

impl From<LockHeight> for u32 {
    fn from(lock_height: LockHeight) -> u32 {
        lock_height.into_consensus()
    }
}

impl vstd::std_specs::convert::FromSpecImpl<LockHeight> for u32 {
    open spec fn obeys_from_spec() -> bool {
        true
    }

    open spec fn from_spec(v: LockHeight) -> u32 {
        v.value()
    }
}

impl std::str::FromStr for LockTimestamp {
    type Err = ParseError;

    fn from_str(s: &str) -> Result<Self, ParseError> {
        LockTimestamp::parse_str(s)
    }
}

impl std::str::FromStr for LockHeight {
    type Err = ParseError;

    fn from_str(s: &str) -> Result<Self, ParseError> {
        LockHeight::parse_str(s)
    }
}

/// Formatting a timestamp lock gives lower-case ASCII text, and reading that
/// text back gives the same lock value.
pub proof fn lemma_timestamp_text_round_trip(v: u32)
    requires
        is_timestamp_value(v),
    ensures
        is_lower_ascii(timestamp_text(v)),
        timestamp_from_text(timestamp_text(v)) == Ok::<u32, ParseErrorModel>(v),
{
    if v != 0 {
        lemma_enclosed_decimal(time_open(), v);
    }
}

/// Formatting a height lock gives lower-case ASCII text, and reading that
/// text back gives the same lock value.
pub proof fn lemma_height_text_round_trip(v: u32)
    requires
        is_height_value(v),
    ensures
        is_lower_ascii(height_text(v)),
        height_from_text(height_text(v)) == Ok::<u32, ParseErrorModel>(v),
{
    if v != 0 {
        lemma_enclosed_decimal(height_open(), v);
    }
}

proof fn lemma_enclosed_decimal(open: Seq<char>, v: u32)
    requires
        open == time_open() || open == height_open(),
    ensures
        ({
            let t = open + decimal(v as nat) + seq![')'];
            &&& is_lower_ascii(t)
            &&& !is_anytime_text(t)
            &&& starts_with(t, open)
            &&& t.last() == ')'
            &&& parse_u32(enclosed_number(t, open.len() as int)) == Some(v)
        }),
{
    lemma_decimal(v as nat);
    let d = decimal(v as nat);
    let t = open + d + seq![')'];
    assert(t.subrange(0, open.len() as int) =~= open);
    assert(t.subrange(open.len() as int, t.len() - 1) =~= d);
    assert(unsigned_body(d) == d);
    assert(is_lower_ascii(t)) by {
        assert forall|i: int| 0 <= i < t.len() implies (t[i] as u32) < 128 && !(65 <= (t[i] as u32)
            && (t[i] as u32) <= 90) by {
            if open.len() <= i < open.len() + d.len() {
                assert(t[i] == d[i - open.len()]);
            }
        }
    }
}

} // verus!
