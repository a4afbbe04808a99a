//! Checks that untrusted message identifiers and timestamps are well formed
//! before they reach storage.

use vstd::prelude::*;
use vstd::string::*;

verus! {

/// Longest identifier accepted, in characters.
pub const MAX_ID_LEN: usize = 128;

/// Shortest timestamp accepted: `YYYY-MM-DDTHH:MM:SS`.
pub const MIN_TIMESTAMP_LEN: usize = 19;

/// What `char::is_alphanumeric` answers for a character.
pub uninterp spec fn alnum(c: char) -> bool;

/// Relies on `char::is_alphanumeric`: Unicode's Alphabetic property or a
/// numeric general category. The answer depends on the character alone; in
/// the ASCII range it holds of the letters and digits only.
#[verifier::external_body]
fn is_alphanumeric(c: char) -> (r: bool)
    ensures
        r == alnum(c),
        c <= '\x7f' ==> (r <==> ('a' <= c <= 'z' || 'A' <= c <= 'Z' || '0' <= c <= '9')),
{
    c.is_alphanumeric()
}

pub open spec fn is_separator(c: char) -> bool {
    c == '-' || c == '_'
}

/// A message to store, as the caller hands it over.
pub struct MessageToSave {
    pub id: String,
    pub role: String,
    pub content: String,
    pub tool_calls: Option<String>,
    pub tool_results: Option<String>,
    pub created_at: String,
}

/// A turn to store: one user message and one assistant message.
pub struct ConversationUpdate {
    pub conversation_id: String,
    pub user_message: MessageToSave,
    pub assistant_message: MessageToSave,
    pub session_id: Option<String>,
}

/// The first rule that an identifier breaks.
#[derive(Clone, Copy, Debug, PartialEq, Eq, Structural)]
pub enum IdFault {
    Empty,
    TooLong,
    BadStart,
    BadEnd,
    AdjacentSeparators,
    InvalidCharacter,
}

/// The first rule that a timestamp breaks.
#[derive(Clone, Copy, Debug, PartialEq, Eq, Structural)]
pub enum TimestampFault {
    Empty,
    TooShort,
    BadLayout,
    YearNotNumeric,
    MonthNotNumeric,
    MonthOutOfRange,
    DayNotNumeric,
    DayOutOfRange,
    HourNotNumeric,
    HourOutOfRange,
    MinuteNotNumeric,
    MinuteOutOfRange,
    SecondNotNumeric,
    SecondOutOfRange,
}

pub open spec fn id_fault_text(f: IdFault) -> Seq<char> {
    match f {
        IdFault::Empty => "Message ID cannot be empty"@,
        IdFault::TooLong => "Message ID too long (max 128 chars)"@,
        IdFault::BadStart => "Message ID must start with alphanumeric character"@,
        IdFault::BadEnd => "Message ID must end with alphanumeric character"@,
        IdFault::AdjacentSeparators => "Message ID cannot have consecutive special characters"@,
        IdFault::InvalidCharacter => "Message ID contains invalid characters"@,
    }
}

pub open spec fn timestamp_fault_text(f: TimestampFault) -> Seq<char> {
    match f {
        TimestampFault::Empty => "Timestamp cannot be empty"@,
        TimestampFault::TooShort => "Timestamp format invalid (too short)"@,
        TimestampFault::BadLayout => "Timestamp format invalid (expected ISO 8601)"@,
        TimestampFault::YearNotNumeric => "Invalid timestamp: year must be numeric"@,
        TimestampFault::MonthNotNumeric => "Invalid timestamp: month must be numeric"@,
        TimestampFault::MonthOutOfRange => "Invalid timestamp: month must be 1-12"@,
        TimestampFault::DayNotNumeric => "Invalid timestamp: day must be numeric"@,
        TimestampFault::DayOutOfRange => "Invalid timestamp: day must be 1-31"@,
        TimestampFault::HourNotNumeric => "Invalid timestamp: hour must be numeric"@,
        TimestampFault::HourOutOfRange => "Invalid timestamp: hour must be 0-23"@,
        TimestampFault::MinuteNotNumeric => "Invalid timestamp: minute must be numeric"@,
        TimestampFault::MinuteOutOfRange => "Invalid timestamp: minute must be 0-59"@,
        TimestampFault::SecondNotNumeric => "Invalid timestamp: second must be numeric"@,
        TimestampFault::SecondOutOfRange => "Invalid timestamp: second must be 0-59"@,
    }
}

impl IdFault {
    pub fn message(&self) -> (r: String)
        ensures
            r@ == id_fault_text(*self),
    {
        match self {
            IdFault::Empty => String::from_str("Message ID cannot be empty"),
            IdFault::TooLong => String::from_str("Message ID too long (max 128 chars)"),
            IdFault::BadStart => String::from_str(
                "Message ID must start with alphanumeric character",
            ),
            IdFault::BadEnd => String::from_str("Message ID must end with alphanumeric character"),
            IdFault::AdjacentSeparators => String::from_str(
                "Message ID cannot have consecutive special characters",
            ),
            IdFault::InvalidCharacter => String::from_str("Message ID contains invalid characters"),
        }
    }
}

impl TimestampFault {
    pub fn message(&self) -> (r: String)
        ensures
            r@ == timestamp_fault_text(*self),
    {
        match self {
            TimestampFault::Empty => String::from_str("Timestamp cannot be empty"),
            TimestampFault::TooShort => String::from_str("Timestamp format invalid (too short)"),
            TimestampFault::BadLayout => String::from_str(
                "Timestamp format invalid (expected ISO 8601)",
            ),
            TimestampFault::YearNotNumeric => String::from_str(
                "Invalid timestamp: year must be numeric",
            ),
            TimestampFault::MonthNotNumeric => String::from_str(
                "Invalid timestamp: month must be numeric",
            ),
            TimestampFault::MonthOutOfRange => String::from_str(
                "Invalid timestamp: month must be 1-12",
            ),
            TimestampFault::DayNotNumeric => String::from_str(
                "Invalid timestamp: day must be numeric",
            ),
            TimestampFault::DayOutOfRange => String::from_str("Invalid timestamp: day must be 1-31"),
            TimestampFault::HourNotNumeric => String::from_str(
                "Invalid timestamp: hour must be numeric",
            ),
            TimestampFault::HourOutOfRange => String::from_str(
                "Invalid timestamp: hour must be 0-23",
            ),
            TimestampFault::MinuteNotNumeric => String::from_str(
                "Invalid timestamp: minute must be numeric",
            ),
            TimestampFault::MinuteOutOfRange => String::from_str(
                "Invalid timestamp: minute must be 0-59",
            ),
            TimestampFault::SecondNotNumeric => String::from_str(
                "Invalid timestamp: second must be numeric",
            ),
            TimestampFault::SecondOutOfRange => String::from_str(
                "Invalid timestamp: second must be 0-59",
            ),
        }
    }
}

/// Position `i` holds a character that is neither alphanumeric (by
/// `flags`) nor a separator.
pub open spec fn invalid_at(s: Seq<char>, flags: Seq<bool>, i: int) -> bool {
    !flags[i] && !is_separator(s[i])
}

/// Positions `i - 1` and `i` both hold separators.
pub open spec fn adjacent_at(s: Seq<char>, i: int) -> bool {
    is_separator(s[i]) && is_separator(s[i - 1])
}

/// The first rule, in the order checked, that identifier `s` breaks, where
/// `flags[i]` says whether `s[i]` is alphanumeric: empty, too long, bad first
/// character, bad last character, an invalid character anywhere, then two
/// separators side by side anywhere.
pub open spec fn id_fault_of(s: Seq<char>, flags: Seq<bool>) -> Option<IdFault> {
    if s.len() == 0 {
        Some(IdFault::Empty)
    } else if s.len() > MAX_ID_LEN {
        Some(IdFault::TooLong)
    } else if !flags[0] {
        Some(IdFault::BadStart)
    } else if !flags[s.len() - 1] {
        Some(IdFault::BadEnd)
    } else if exists|i: int| 0 <= i < s.len() && #[trigger] invalid_at(s, flags, i) {
        Some(IdFault::InvalidCharacter)
    } else if exists|i: int| 1 <= i < s.len() && #[trigger] adjacent_at(s, i) {
        Some(IdFault::AdjacentSeparators)
    } else {
        None
    }
}

/// Whether each character of `s` is alphanumeric.
pub open spec fn alnum_flags(s: Seq<char>) -> Seq<bool> {
    Seq::new(s.len(), |i: int| alnum(s[i]))
}

/// The first rule, in the order checked, that identifier `s` breaks.
pub open spec fn id_fault(s: Seq<char>) -> Option<IdFault> {
    id_fault_of(s, alnum_flags(s))
}

/// An identifier as it must be: 1 to 128 characters, alphanumeric at both
/// ends, nothing but alphanumerics, `-` and `_`, and no two separators side
/// by side.
pub open spec fn well_formed_id(s: Seq<char>) -> bool {
    &&& 1 <= s.len() <= MAX_ID_LEN
    &&& alnum(s[0])
    &&& alnum(s.last())
    &&& forall|i: int| 0 <= i < s.len() ==> alnum(#[trigger] s[i]) || is_separator(s[i])
    &&& forall|i: int|
        1 <= i < s.len() ==> !(is_separator(#[trigger] s[i]) && is_separator(s[i - 1]))
}

pub open spec fn result_for_fault<F>(f: Option<F>, text: spec_fn(F) -> Seq<char>, r: Result<
    (),
    String,
>) -> bool {
    match r {
        Ok(_) => f is None,
        Err(e) => f matches Some(g) && e@ == text(g),
    }
}

/// An identifier passes `validate_id` exactly when it is well formed.
pub proof fn lemma_id_accepted_iff_well_formed(s: Seq<char>)
    ensures
        id_fault(s) is None <==> well_formed_id(s),
{
    let flags = alnum_flags(s);
    if id_fault(s) is None {
        assert forall|i: int| 0 <= i < s.len() implies alnum(#[trigger] s[i]) || is_separator(
            s[i],
        ) by {
            assert(!invalid_at(s, flags, i));
        }
        assert forall|i: int| 1 <= i < s.len() implies !(is_separator(#[trigger] s[i])
            && is_separator(s[i - 1])) by {
            assert(!adjacent_at(s, i));
        }
    }
    if well_formed_id(s) {
        assert(!exists|i: int| 0 <= i < s.len() && #[trigger] invalid_at(s, flags, i));
        assert(!exists|i: int| 1 <= i < s.len() && #[trigger] adjacent_at(s, i));
    }
}

pub open spec fn is_digit(c: char) -> bool {
    '0' <= c <= '9'
}

pub open spec fn all_digits(s: Seq<char>) -> bool {
    forall|i: int| 0 <= i < s.len() ==> is_digit(#[trigger] s[i])
}

/// The number that decimal digits `s` write.
pub open spec fn decimal_value(s: Seq<char>) -> nat
    decreases s.len(),
{
    if s.len() == 0 {
        0
    } else {
        decimal_value(s.drop_last()) * 10 + (s.last() as nat - '0' as nat) as nat
    }
}

/// How an unsigned integer is read from text: an optional `+`, then one or
/// more ASCII digits.
pub open spec fn unsigned_value(s: Seq<char>) -> Option<nat> {
    if s.len() > 0 && s[0] == '+' {
        if s.len() > 1 && all_digits(s.skip(1)) {
            Some(decimal_value(s.skip(1)))
        } else {
            None
        }
    } else if s.len() > 0 && all_digits(s) {
        Some(decimal_value(s))
    } else {
        None
    }
}

/// The number in the fixed-width field `from..to` of timestamp `t`.
pub open spec fn field(t: Seq<char>, from: int, to: int) -> Option<nat> {
    unsigned_value(t.subrange(from, to))
}

pub open spec fn layout_ok(t: Seq<char>) -> bool {
    t[4] == '-' && t[7] == '-' && t[10] == 'T' && t[13] == ':' && t[16] == ':'
}

/// The first rule, in the order checked, that timestamp `t` breaks.
pub open spec fn timestamp_fault(t: Seq<char>) -> Option<TimestampFault> {
    if t.len() == 0 {
        Some(TimestampFault::Empty)
    } else if t.len() < MIN_TIMESTAMP_LEN {
        Some(TimestampFault::TooShort)
    } else if !layout_ok(t) {
        Some(TimestampFault::BadLayout)
    } else if field(t, 0, 4) is None {
        Some(TimestampFault::YearNotNumeric)
    } else if field(t, 5, 7) is None {
        Some(TimestampFault::MonthNotNumeric)
    } else if !(1 <= field(t, 5, 7)->0 <= 12) {
        Some(TimestampFault::MonthOutOfRange)
    } else if field(t, 8, 10) is None {
        Some(TimestampFault::DayNotNumeric)
    } else if !(1 <= field(t, 8, 10)->0 <= 31) {
        Some(TimestampFault::DayOutOfRange)
    } else if field(t, 11, 13) is None {
        Some(TimestampFault::HourNotNumeric)
    } else if field(t, 11, 13)->0 > 23 {
        Some(TimestampFault::HourOutOfRange)
    } else if field(t, 14, 16) is None {
        Some(TimestampFault::MinuteNotNumeric)
    } else if field(t, 14, 16)->0 > 59 {
        Some(TimestampFault::MinuteOutOfRange)
    } else if field(t, 17, 19) is None {
        Some(TimestampFault::SecondNotNumeric)
    } else if field(t, 17, 19)->0 > 59 {
        Some(TimestampFault::SecondOutOfRange)
    } else {
        None
    }
}

/// A timestamp as it must be: at least 19 characters, the delimiters of
/// `YYYY-MM-DDTHH:MM:SS` in place, a numeric year, and month, day, hour,
/// minute and second numeric and in range. What follows the first 19
/// characters is not looked at.
pub open spec fn well_formed_timestamp(t: Seq<char>) -> bool {
    &&& t.len() >= MIN_TIMESTAMP_LEN
    &&& layout_ok(t)
    &&& field(t, 0, 4) is Some
    &&& field(t, 5, 7) matches Some(month) && 1 <= month <= 12
    &&& field(t, 8, 10) matches Some(day) && 1 <= day <= 31
    &&& field(t, 11, 13) matches Some(hour) && hour <= 23
    &&& field(t, 14, 16) matches Some(minute) && minute <= 59
    &&& field(t, 17, 19) matches Some(second) && second <= 59
}

/// A timestamp passes `validate_timestamp` exactly when it is well formed.
pub proof fn lemma_timestamp_accepted_iff_well_formed(t: Seq<char>)
    ensures
        timestamp_fault(t) is None <==> well_formed_timestamp(t),
{
}

/// Only the first 19 characters of a timestamp decide whether it is accepted.
pub proof fn lemma_timestamp_suffix_ignored(t: Seq<char>, suffix: Seq<char>)
    requires
        t.len() >= MIN_TIMESTAMP_LEN,
    ensures
        timestamp_fault(t + suffix) == timestamp_fault(t),
{
    let u = t + suffix;
    assert(u.subrange(0, 4) =~= t.subrange(0, 4));
    assert(u.subrange(5, 7) =~= t.subrange(5, 7));
    assert(u.subrange(8, 10) =~= t.subrange(8, 10));
    assert(u.subrange(11, 13) =~= t.subrange(11, 13));
    assert(u.subrange(14, 16) =~= t.subrange(14, 16));
    assert(u.subrange(17, 19) =~= t.subrange(17, 19));
}

/// Reads the field `from..to` of `t` as an unsigned integer, as
/// `unsigned_value` describes.
fn parse_field(t: &str, from: usize, to: usize) -> (r: Option<u32>)
    requires
        from < to <= t@.len(),
        to - from <= 4,
    ensures
        r matches Some(v) ==> field(t@, from as int, to as int) == Some(v as nat),
        r is None ==> field(t@, from as int, to as int) is None,
{
    let ghost s = t@.subrange(from as int, to as int);
    assert(s[0] == t@[from as int]);
    let mut start = from;
    if t.get_char(from) == '+' {
        start = from + 1;
        if start == to {
            return None;
        }
    }
    let ghost d = t@.subrange(start as int, to as int);
    assert(start > from ==> d =~= s.skip(1));
    assert(start == from ==> d =~= s);
    let mut value: u32 = 0;
    let mut i = start;
    while i < to
        invariant
            from <= start < to <= t@.len(),
            to - from <= 4,
            start <= i <= to,
            d == t@.subrange(start as int, to as int),
            s == t@.subrange(from as int, to as int),
            (start > from) == (s[0] == '+'),
            start > from ==> start == from + 1 && d =~= s.skip(1),
            start == from ==> d =~= s,
            all_digits(t@.subrange(start as int, i as int)),
            value as nat == decimal_value(t@.subrange(start as int, i as int)),
            value < pow10((i - start) as nat),
        decreases to - i,
    {
        let c = t.get_char(i);
        if !('0' <= c && c <= '9') {
            assert(d[i - start] == c);
            assert(!all_digits(d));
            return None;
        }
        let ghost prev = t@.subrange(start as int, i as int);
        let ghost next = t@.subrange(start as int, i + 1);
        assert(next.drop_last() =~= prev);
        proof {
            lemma_pow10_step((i - start) as nat);
        }
        value = value * 10 + (c as u32 - '0' as u32);
        i = i + 1;
    }
    assert(t@.subrange(start as int, to as int) =~= d);
    Some(value)
}

pub open spec fn pow10(n: nat) -> nat
    decreases n,
{
    if n == 0 {
        1
    } else {
        10 * pow10((n - 1) as nat)
    }
}

proof fn lemma_pow10_step(n: nat)
    requires
        n < 4,
    ensures
        pow10(n + 1) <= 10000,
        pow10(n + 1) == 10 * pow10(n),
{
    reveal_with_fuel(pow10, 5);
}

/// A message passes validation: identifier and timestamp are well formed.
pub open spec fn message_ok(m: MessageToSave) -> bool {
    id_fault(m.id@) is None && timestamp_fault(m.created_at@) is None
}

/// The error text that validating `m` reports: the identifier's first fault,
/// else the timestamp's.
pub open spec fn message_fault_text(m: MessageToSave) -> Seq<char> {
    match id_fault(m.id@) {
        Some(f) => id_fault_text(f),
        None => match timestamp_fault(m.created_at@) {
            Some(f) => timestamp_fault_text(f),
            None => Seq::empty(),
        },
    }
}

/// The first rule that identifier `id` breaks, given for each of its
/// characters whether it is alphanumeric.
pub fn id_fault_given(id: &str, alnum_flags: &Vec<bool>) -> (r: Option<IdFault>)
    requires
        alnum_flags@.len() == id@.len(),
    ensures
        r == id_fault_of(id@, alnum_flags@),
{
    let ghost s = id@;
    let ghost flags = alnum_flags@;
    let n = id.unicode_len();
    if n == 0 {
        return Some(IdFault::Empty);
    }
    if n > MAX_ID_LEN {
        return Some(IdFault::TooLong);
    }
    if !alnum_flags[0] {
        return Some(IdFault::BadStart);
    }
    if !alnum_flags[n - 1] {
        return Some(IdFault::BadEnd);
    }
    let mut i: usize = 0;
    while i < n
        invariant
            n == s.len(),
            s == id@,
            flags == alnum_flags@,
            flags.len() == n,
            1 <= n <= MAX_ID_LEN,
            flags[0] && flags[n - 1],
            i <= n,
            forall|j: int| 0 <= j < i ==> !#[trigger] invalid_at(s, flags, j),
        decreases n - i,
    {
        let c = id.get_char(i);
        if !alnum_flags[i] && c != '-' && c != '_' {
            assert(invalid_at(s, flags, i as int));
            return Some(IdFault::InvalidCharacter);
        }
        i = i + 1;
    }
    let mut k: usize = 1;
    while k < n
        invariant
            n == s.len(),
            s == id@,
            flags == alnum_flags@,
            flags.len() == n,
            1 <= n <= MAX_ID_LEN,
            flags[0] && flags[n - 1],
            1 <= k <= n,
            forall|j: int| 0 <= j < n ==> !#[trigger] invalid_at(s, flags, j),
            forall|j: int| 1 <= j < k ==> !#[trigger] adjacent_at(s, j),
        decreases n - k,
    {
        let c = id.get_char(k);
        let d = id.get_char(k - 1);
        if (c == '-' || c == '_') && (d == '-' || d == '_') {
            assert(adjacent_at(s, k as int));
            return Some(IdFault::AdjacentSeparators);
        }
        k = k + 1;
    }
    None
}

impl MessageToSave {
    /// Checks the identifier: non-empty, at most 128 characters, alphanumeric
    /// at both ends, only alphanumerics, `-` and `_`, no adjacent separators.
    /// The first rule broken, in that order, gives the error.
    pub fn validate_id(&self) -> (r: Result<(), String>)
        ensures
            result_for_fault(id_fault(self.id@), |f: IdFault| id_fault_text(f), r),
    {
        let id = self.id.as_str();
        let n = id.unicode_len();
        let mut flags: Vec<bool> = Vec::new();
        let mut i: usize = 0;
        while i < n
            invariant
                n == id@.len(),
                i <= n,
                flags@ =~= alnum_flags(id@).subrange(0, i as int),
            decreases n - i,
        {
            flags.push(is_alphanumeric(id.get_char(i)));
            i = i + 1;
        }
        assert(alnum_flags(id@).subrange(0, n as int) =~= alnum_flags(id@));
        match id_fault_given(id, &flags) {
            None => Ok(()),
            Some(f) => Err(f.message()),
        }
    }

    /// Checks the creation timestamp: at least 19 characters, the delimiters
    /// of `YYYY-MM-DDTHH:MM:SS` in place, then year, month, day, hour, minute
    /// and second numeric and in range, in that order. What follows the
    /// first 19 characters is not looked at.
    pub fn validate_timestamp(&self) -> (r: Result<(), String>)
        ensures
            result_for_fault(
                timestamp_fault(self.created_at@),
                |f: TimestampFault| timestamp_fault_text(f),
                r,
            ),
    {
        let t = self.created_at.as_str();
        let n = t.unicode_len();
        if n == 0 {
            return Err(TimestampFault::Empty.message());
        }
        if n < MIN_TIMESTAMP_LEN {
            return Err(TimestampFault::TooShort.message());
        }
        if t.get_char(4) != '-' || t.get_char(7) != '-' || t.get_char(10) != 'T' || t.get_char(13)
            != ':' || t.get_char(16) != ':' {
            return Err(TimestampFault::BadLayout.message());
        }
        if parse_field(t, 0, 4).is_none() {
            return Err(TimestampFault::YearNotNumeric.message());
        }
        let month = match parse_field(t, 5, 7) {
            Some(v) => v,
            None => return Err(TimestampFault::MonthNotNumeric.message()),
        };
        if month < 1 || month > 12 {
            return Err(TimestampFault::MonthOutOfRange.message());
        }
        let day = match parse_field(t, 8, 10) {
            Some(v) => v,
            None => return Err(TimestampFault::DayNotNumeric.message()),
        };
        if day < 1 || day > 31 {
            return Err(TimestampFault::DayOutOfRange.message());
        }
        let hour = match parse_field(t, 11, 13) {
            Some(v) => v,
            None => return Err(TimestampFault::HourNotNumeric.message()),
        };
        if hour > 23 {
            return Err(TimestampFault::HourOutOfRange.message());
        }
        let minute = match parse_field(t, 14, 16) {
            Some(v) => v,
            None => return Err(TimestampFault::MinuteNotNumeric.message()),
        };
        if minute > 59 {
            return Err(TimestampFault::MinuteOutOfRange.message());
        }
        let second = match parse_field(t, 17, 19) {
            Some(v) => v,
            None => return Err(TimestampFault::SecondNotNumeric.message()),
        };
        if second > 59 {
            return Err(TimestampFault::SecondOutOfRange.message());
        }
        Ok(())
    }

    /// Checks the identifier, then the timestamp; the first failure is
    /// returned.
    pub fn validate(&self) -> (r: Result<(), String>)
        ensures
            r is Ok <==> message_ok(*self),
            r matches Err(e) ==> e@ == message_fault_text(*self),
    {
        self.validate_id()?;
        self.validate_timestamp()?;
        Ok(())
    }
}

} // verus!
