//! Types of the UEFI runtime services.
use crate::data_types::guid::spec_guid_bytes;
use crate::data_types::strs::spec_check_cstr16;
use crate::data_types::text::{append_decimal, append_padded, decimal, pad_left, string_of};
use crate::data_types::{CStr16, FromSliceWithNulError, Guid};
use crate::result::status::{error_bit, spec_is_success};
use crate::result::{Completion, Error, Status};
use vstd::prelude::*;

verus! {

/// A bitmask containing daylight savings time information.
///
/// The model is the set of bits, as a number.
#[derive(Clone, Copy, Debug, PartialEq, Eq, Structural, PartialOrd, Ord, Hash)]
pub struct Daylight {
    bits: u8,
}

impl View for Daylight {
    type V = u8;

    closed spec fn view(&self) -> u8 {
        self.bits
    }
}

#[allow(non_snake_case)]
impl Daylight {
    /// Time is affected by daylight savings time.
    pub fn ADJUST_DAYLIGHT() -> (r: Daylight)
        ensures
            r@ == 0x01,
    {
        Daylight { bits: 0x01 }
    }

    /// Time has been adjusted for daylight savings time.
    pub fn IN_DAYLIGHT() -> (r: Daylight)
        ensures
            r@ == 0x02,
    {
        Daylight { bits: 0x02 }
    }

    /// No flag set.
    pub fn empty() -> (r: Daylight)
        ensures
            r@ == 0,
    {
        Daylight { bits: 0 }
    }

    /// The raw bits.
    pub fn bits(&self) -> (r: u8)
        ensures
            r == self@,
    {
        self.bits
    }

    /// The flags whose bits are set in `bits`; bits that no flag names are
    /// dropped.
    pub fn from_bits_truncate(bits: u8) -> (r: Daylight)
        ensures
            r@ == bits & 0x03,
    {
        Daylight { bits: bits & 0x03 }
    }

    /// True if every flag set in `other` is set in `self`.
    pub fn contains(&self, other: Daylight) -> (r: bool)
        ensures
            r == (self@ & other@ == other@),
    {
        self.bits & other.bits == other.bits
    }
}

/// The fields of a [`Time`].
pub struct TimeFields {
    /// Year, `1900..=9999` when valid.
    pub year: u16,
    /// Month, `1..=12` when valid.
    pub month: u8,
    /// Day, `1..=31` when valid.
    pub day: u8,
    /// Hour, `0..=23` when valid.
    pub hour: u8,
    /// Minute, `0..=59` when valid.
    pub minute: u8,
    /// Second, `0..=59` when valid.
    pub second: u8,
    /// Nanosecond, `0..=999_999_999` when valid.
    pub nanosecond: u32,
    /// Offset in minutes from UTC, `-1440..=1440`, or `2047` for local time.
    pub time_zone: i16,
    /// Daylight savings time information.
    pub daylight: Daylight,
}

/// The time zone value that stands for local time.
pub open spec fn unspecified_timezone() -> i16 {
    0x07ff
}

/// All fields are within their valid ranges.
pub open spec fn time_fields_valid(t: TimeFields) -> bool {
    &&& 1900 <= t.year <= 9999
    &&& 1 <= t.month <= 12
    &&& 1 <= t.day <= 31
    &&& t.hour <= 23
    &&& t.minute <= 59
    &&& t.second <= 59
    &&& t.nanosecond <= 999_999_999
    &&& (-1440 <= t.time_zone <= 1440 || t.time_zone == unspecified_timezone())
}

/// Date and time representation.
#[derive(Copy, Clone, Debug, PartialEq, Eq, Structural)]
pub struct Time {
    year: u16,
    month: u8,
    day: u8,
    hour: u8,
    minute: u8,
    second: u8,
    nanosecond: u32,
    time_zone: i16,
    daylight: Daylight,
}

impl View for Time {
    type V = TimeFields;

    closed spec fn view(&self) -> TimeFields {
        TimeFields {
            year: self.year,
            month: self.month,
            day: self.day,
            hour: self.hour,
            minute: self.minute,
            second: self.second,
            nanosecond: self.nanosecond,
            time_zone: self.time_zone,
            daylight: self.daylight,
        }
    }
}

/// Input parameters for [`Time::new`].
#[derive(Copy, Clone, Debug)]
pub struct TimeParams {
    /// Year in the range `1900..=9999`.
    pub year: u16,
    /// Month in the range `1..=12`.
    pub month: u8,
    /// Day in the range `1..=31`.
    pub day: u8,
    /// Hour in the range `0.=23`.
    pub hour: u8,
    /// Minute in the range `0..=59`.
    pub minute: u8,
    /// Second in the range `0..=59`.
    pub second: u8,
    /// Fraction of a second represented as nanoseconds in the range
    /// `0..=999_999_999`.
    pub nanosecond: u32,
    /// Offset in minutes from UTC in the range `-1440..=1440`, or
    /// local time if `None`.
    pub time_zone: Option<i16>,
    /// Daylight savings time information.
    pub daylight: Daylight,
}

/// The fields of the time that `params` describe.
pub open spec fn time_fields_of(params: TimeParams) -> TimeFields {
    TimeFields {
        year: params.year,
        month: params.month,
        day: params.day,
        hour: params.hour,
        minute: params.minute,
        second: params.second,
        nanosecond: params.nanosecond,
        time_zone: match params.time_zone {
            Some(tz) => tz,
            None => unspecified_timezone(),
        },
        daylight: params.daylight,
    }
}

/// The parameters describe a valid time: each field is within its range,
/// and the time zone is local (`None`) or an offset in `-1440..=1440`.
pub open spec fn time_params_valid(params: TimeParams) -> bool {
    &&& time_fields_valid(time_fields_of(params))
    &&& match params.time_zone {
        Some(tz) => -1440 <= tz <= 1440,
        None => true,
    }
}

/// Error returned by [`Time`] methods if the input is outside the valid range.
#[derive(Copy, Clone, Debug, Eq, PartialEq, Structural)]
pub struct TimeError;

impl Time {
    /// Create a `Time` value. If a field is not in the valid range,
    /// [`TimeError`] is returned.
    pub fn new(params: TimeParams) -> (r: Result<Time, TimeError>)
        ensures
            r is Ok <==> time_params_valid(params),
            r matches Ok(t) ==> t@ == time_fields_of(params),
    {
        if let Some(tz) = params.time_zone {
            if tz < -1440 || tz > 1440 {
                return Err(TimeError);
            }
        }
        let time = Time {
            year: params.year,
            month: params.month,
            day: params.day,
            hour: params.hour,
            minute: params.minute,
            second: params.second,
            nanosecond: params.nanosecond,
            time_zone: match params.time_zone {
                Some(tz) => tz,
                None => 0x07ff,
            },
            daylight: params.daylight,
        };
        if time.is_valid() {
            Ok(time)
        } else {
            Err(TimeError)
        }
    }

    /// Create an invalid `Time` with all fields set to zero. This can be
    /// used with file information to indicate a field should not be updated
    /// when setting the information.
    pub fn invalid() -> (r: Time)
        ensures
            r@.year == 0 && r@.month == 0 && r@.day == 0 && r@.hour == 0,
            r@.minute == 0 && r@.second == 0 && r@.nanosecond == 0,
            r@.time_zone == 0 && r@.daylight@ == 0,
            !time_fields_valid(r@),
    {
        Time {
            year: 0,
            month: 0,
            day: 0,
            hour: 0,
            minute: 0,
            second: 0,
            nanosecond: 0,
            time_zone: 0,
            daylight: Daylight::empty(),
        }
    }

    /// True if all fields are within valid ranges, false otherwise.
    pub fn is_valid(&self) -> (r: bool)
        ensures
            r == time_fields_valid(self@),
    {
        1900 <= self.year && self.year <= 9999 && 1 <= self.month && self.month <= 12 && 1
            <= self.day && self.day <= 31 && self.hour <= 23 && self.minute <= 59 && self.second
            <= 59 && self.nanosecond <= 999_999_999 && ((-1440 <= self.time_zone
            && self.time_zone <= 1440) || self.time_zone == 0x07ff)
    }

    /// Query the year.
    pub fn year(&self) -> (r: u16)
        ensures
            r == self@.year,
    {
        self.year
    }

    /// Query the month.
    pub fn month(&self) -> (r: u8)
        ensures
            r == self@.month,
    {
        self.month
    }

    /// Query the day.
    pub fn day(&self) -> (r: u8)
        ensures
            r == self@.day,
    {
        self.day
    }

    /// Query the hour.
    pub fn hour(&self) -> (r: u8)
        ensures
            r == self@.hour,
    {
        self.hour
    }

    /// Query the minute.
    pub fn minute(&self) -> (r: u8)
        ensures
            r == self@.minute,
    {
        self.minute
    }

    /// Query the second.
    pub fn second(&self) -> (r: u8)
        ensures
            r == self@.second,
    {
        self.second
    }

    /// Query the nanosecond.
    pub fn nanosecond(&self) -> (r: u32)
        ensures
            r == self@.nanosecond,
    {
        self.nanosecond
    }

    /// Query the time offset in minutes from UTC, or None if using local time.
    pub fn time_zone(&self) -> (r: Option<i16>)
        ensures
            r == (if self@.time_zone == 2047 {
                None
            } else {
                Some(self@.time_zone)
            }),
    {
        if self.time_zone == 2047 {
            None
        } else {
            Some(self.time_zone)
        }
    }

    /// Query the daylight savings time information.
    pub fn daylight(&self) -> (r: Daylight)
        ensures
            r == self@.daylight,
    {
        self.daylight
    }
}

/// A time made from valid parameters gives back each of them, its time
/// zone included.
pub proof fn lemma_time_new_roundtrip(params: TimeParams, t: Time)
    requires
        time_params_valid(params),
        t@ == time_fields_of(params),
    ensures
        t@.year == params.year && t@.month == params.month && t@.day == params.day,
        t@.hour == params.hour && t@.minute == params.minute && t@.second == params.second,
        t@.nanosecond == params.nanosecond && t@.daylight == params.daylight,
        (if t@.time_zone == 2047 {
            None
        } else {
            Some(t@.time_zone)
        }) == params.time_zone,
{
}

/// The valid ranges of a time's fields: years 1900 to 9999, months 1 to 12,
/// days 1 to 31 (every day of every month can be given), hours 0 to 23,
/// minutes and seconds 0 to 59, nanoseconds below a billion, and a time
/// zone within a day of UTC (-1440 to 1440 minutes) or local time (2047).
pub proof fn lemma_time_field_ranges(t: TimeFields)
    ensures
        time_fields_valid(t) <==> {
            &&& 1900 <= t.year && t.year <= 9999
            &&& 1 <= t.month && t.month <= 12
            &&& 1 <= t.day && t.day <= 31
            &&& t.hour < 24
            &&& t.minute < 60
            &&& t.second < 60
            &&& t.nanosecond < 1_000_000_000
            &&& ((-1440 <= t.time_zone && t.time_zone <= 1440) || t.time_zone == 2047)
        },
{
}

/// A time is made from its parameters exactly when each is within the range
/// that its documentation gives: years 1900 to 9999, months 1 to 12, days 1
/// to 31, hours 0 to 23, minutes and seconds 0 to 59, nanoseconds below a
/// billion, and a time zone of local time or an offset of -1440 to 1440
/// minutes. The daylight flags are never refused.
pub proof fn lemma_time_params_ranges(params: TimeParams)
    ensures
        time_params_valid(params) <==> {
            &&& 1900 <= params.year && params.year <= 9999
            &&& 1 <= params.month && params.month <= 12
            &&& 1 <= params.day && params.day <= 31
            &&& params.hour < 24
            &&& params.minute < 60
            &&& params.second < 60
            &&& params.nanosecond < 1_000_000_000
            &&& match params.time_zone {
                Some(tz) => -1440 <= tz && tz <= 1440,
                None => true,
            }
        },
{
}

/// Real time clock capabilities
#[derive(Debug, Copy, Clone, Eq, PartialEq, Structural)]
pub struct TimeCapabilities {
    /// Reporting resolution of the clock in counts per second. 1 for a normal
    /// PC-AT CMOS RTC device, which reports the time with 1-second resolution.
    pub resolution: u32,
    /// Timekeeping accuracy in units of 1e-6 parts per million.
    pub accuracy: u32,
    /// Whether a time set operation clears the device's time below the
    /// "resolution" reporting level. False for normal PC-AT CMOS RTC devices.
    pub sets_to_zero: bool,
}

/// Information about UEFI variable storage space returned by the query of
/// variable information. Note that the data here is limited to a specific
/// type of variable (as specified by the attributes of the query).
#[derive(Clone, Copy, Debug, Eq, PartialEq, Structural)]
pub struct VariableStorageInfo {
    /// Maximum size in bytes of the storage space available for
    /// variables of the specified type.
    pub maximum_variable_storage_size: u64,
    /// Remaining size in bytes of the storage space available for
    /// variables of the specified type.
    pub remaining_variable_storage_size: u64,
    /// Maximum size of an individual variable of the specified type.
    pub maximum_variable_size: u64,
}

impl Default for VariableStorageInfo {
    fn default() -> (r: Self)
        ensures
            r.maximum_variable_storage_size == 0,
            r.remaining_variable_storage_size == 0,
            r.maximum_variable_size == 0,
    {
        VariableStorageInfo {
            maximum_variable_storage_size: 0,
            remaining_variable_storage_size: 0,
            maximum_variable_size: 0,
        }
    }
}

/// The type of system reset.
#[derive(Debug, Copy, Clone, Eq, PartialEq, Structural)]
pub enum ResetType {
    /// Resets all the internal circuitry to its initial state.
    ///
    /// This is analogous to power cycling the device.
    Cold,
    /// The processor is reset to its initial state.
    Warm,
    /// The components are powered off.
    Shutdown,
    /// A platform-specific reset type.
    ///
    /// The additional data must be a pointer to
    /// a null-terminated string followed by an UUID.
    PlatformSpecific,
}

/// Variable vendor GUID. This serves as a namespace for variables to avoid
/// naming conflicts between vendors. The UEFI specification defines some
/// special values, and vendors will define their own.
#[derive(Debug, Copy, Clone, Eq, PartialEq)]
pub struct VariableVendor(pub Guid);

#[allow(non_snake_case)]
impl VariableVendor {
    /// Used to access global variables.
    pub fn GLOBAL_VARIABLE() -> (r: VariableVendor)
        ensures
            r.0@ == spec_guid_bytes(0x8be4df61, 0x93ca, 0x11d2, 0xaa0d, 0x00e098032b8c),
    {
        VariableVendor(Guid::from_values(0x8be4df61, 0x93ca, 0x11d2, 0xaa0d, 0x00e098032b8c))
    }

    /// Used to access EFI signature database variables.
    pub fn IMAGE_SECURITY_DATABASE() -> (r: VariableVendor)
        ensures
            r.0@ == spec_guid_bytes(0xd719b2cb, 0x3d3a, 0x4596, 0xa3bc, 0xdad00e67656f),
    {
        VariableVendor(Guid::from_values(0xd719b2cb, 0x3d3a, 0x4596, 0xa3bc, 0xdad00e67656f))
    }
}

/// Unique key for a variable: its name, as UCS-2 codes up to and including
/// the first null, and its vendor.
#[derive(Debug)]
pub struct VariableKey {
    name: Vec<u16>,
    /// Unique identifier for the vendor.
    pub vendor: VariableVendor,
}

impl VariableKey {
    /// The codes of the name of the variable.
    pub closed spec fn spec_name(&self) -> Seq<u16> {
        self.name@
    }

    /// The vendor of the variable.
    pub closed spec fn spec_vendor(&self) -> VariableVendor {
        self.vendor
    }

    /// Name of the variable.
    pub fn name(&self) -> (r: Result<CStr16, FromSliceWithNulError>)
        ensures
            match spec_check_cstr16(self.spec_name()) {
                Ok(()) => r matches Ok(s) && s@ == self.spec_name(),
                Err(e) => r == Err::<CStr16, FromSliceWithNulError>(e),
            },
    {
        CStr16::from_u16_with_nul(self.name.as_slice())
    }
}

/// The index of the first null code of `s`, or its length if it has none.
pub open spec fn first_nul(s: Seq<u16>, i: int) -> int
    decreases s.len() - i,
{
    if i < 0 || i >= s.len() {
        s.len() as int
    } else if s[i] == 0 {
        i
    } else {
        first_nul(s, i + 1)
    }
}

/// `s` resized to `n` codes: cut, or padded with nulls.
pub open spec fn resized(s: Seq<u16>, n: nat) -> Seq<u16> {
    if n <= s.len() {
        s.subrange(0, n as int)
    } else {
        s + Seq::new((n - s.len()) as nat, |_i: int| 0u16)
    }
}

/// The first null code of `s` from `i` on is at `i` or after, and no later
/// than the length.
proof fn lemma_first_nul_bounds(s: Seq<u16>, i: int)
    requires
        0 <= i <= s.len(),
    ensures
        i <= first_nul(s, i) <= s.len(),
        first_nul(s, i) < s.len() ==> s[first_nul(s, i)] == 0,
    decreases s.len() - i,
{
    if i < s.len() && s[i] != 0 {
        lemma_first_nul_bounds(s, i + 1);
    }
}

/// The number of bytes of a buffer of `n` UCS-2 codes, as passed to the
/// firmware when asking for the next variable name.
pub fn name_buffer_size(n: usize) -> (r: usize)
    requires
        n * 2 <= usize::MAX,
    ensures
        r == n * 2,
{
    n * 2
}

/// One step of listing the variables: the firmware was asked for the name
/// that follows `name` and answered `status`, with the name written into
/// `name`, its vendor, and the size in bytes that the name needs.
///
/// On success, the key (the name up to its first null, and the vendor) is
/// added to `keys` and the listing goes on; a name without a null stops
/// the listing with `ABORTED`. If the buffer was too small, it is resized
/// to the size the firmware asked for and the listing goes on. `NOT_FOUND`
/// ends the listing with success; any other status ends it with that
/// status. The result is `None` to go on, or the status the listing ends
/// with.
pub fn variable_keys_step(
    keys: &mut Vec<VariableKey>,
    name: &mut Vec<u16>,
    status: Status,
    vendor: Guid,
    name_size_in_bytes: usize,
) -> (r: Option<Status>)
    ensures
        spec_is_success(status) && first_nul(old(name)@, 0) < old(name)@.len() ==> {
            &&& r is None
            &&& final(keys)@.len() == old(keys)@.len() + 1
            &&& final(keys)@.subrange(0, old(keys)@.len() as int) == old(keys)@
            &&& final(keys)@.last().spec_name() == old(name)@.subrange(0, first_nul(old(name)@, 0) + 1)
            &&& final(keys)@.last().spec_vendor() == VariableVendor(vendor)
            &&& final(name)@ == old(name)@
        },
        spec_is_success(status) && first_nul(old(name)@, 0) == old(name)@.len() ==> {
            &&& r matches Some(s) && s@ == error_bit() + 21
            &&& final(keys)@ == old(keys)@
        },
        status@ == error_bit() + 5 ==> {
            &&& r is None
            &&& final(keys)@ == old(keys)@
            &&& final(name)@ == resized(old(name)@, (name_size_in_bytes / 2) as nat)
        },
        status@ == error_bit() + 14 ==> r == Some(Status::spec_from_code(0)) && final(keys)@ == old(
            keys,
        )@,
        !spec_is_success(status) && status@ != error_bit() + 5 && status@ != error_bit() + 14 ==> r
            == Some(status) && final(keys)@ == old(keys)@,
{
    let too_small = Status::BUFFER_TOO_SMALL();
    let not_found = Status::NOT_FOUND();
    proof {
        Status::lemma_view_injective(status, too_small);
        Status::lemma_view_injective(status, not_found);
        broadcast use crate::result::status::group_status_code;
    }
    if status.is_success() {
        let mut i: usize = 0;
        while i < name.len() && name[i] != 0
            invariant
                i <= name@.len(),
                name@ == old(name)@,
                first_nul(name@, 0) == first_nul(name@, i as int),
            decreases name@.len() - i,
        {
            i = i + 1;
        }
        proof {
            lemma_first_nul_bounds(name@, i as int);
        }
        if i == name.len() {
            return Some(Status::ABORTED());
        }
        let key_name = vstd::slice::slice_to_vec(vstd::slice::slice_subrange(name.as_slice(), 0, i + 1));
        keys.push(VariableKey { name: key_name, vendor: VariableVendor(vendor) });
        proof {
            assert(keys@.subrange(0, old(keys)@.len() as int) =~= old(keys)@);
        }
        None
    } else if status == too_small {
        let n = name_size_in_bytes / 2;
        let ghost before = name@;
        if n <= name.len() {
            name.truncate(n);
        } else {
            let mut k = name.len();
            while k < n
                invariant
                    before.len() <= k <= n,
                    name@ == before + Seq::new((k - before.len()) as nat, |_i: int| 0u16),
                decreases n - k,
            {
                name.push(0);
                k = k + 1;
                proof {
                    assert(name@ =~= before + Seq::new((k - before.len()) as nat, |_i: int| 0u16));
                }
            }
        }
        proof {
            assert(name@ =~= resized(before, n as nat));
        }
        None
    } else if status == not_found {
        Some(Status::SUCCESS())
    } else {
        Some(status)
    }
}

/// The result of listing the variables: the keys collected, if the listing
/// ended with success; its status as an error otherwise.
pub fn variable_keys_result(status: Status, keys: Vec<VariableKey>) -> (r: crate::result::Result<
    Vec<VariableKey>,
>)
    ensures
        spec_is_success(status) ==> (r matches Ok(Completion::Success(v)) && v@ == keys@),
        !spec_is_success(status) ==> (r matches Err(e) && e.spec_status() == status),
{
    if status.is_success() {
        Ok(Completion::Success(keys))
    } else {
        Err(Error::new(status, ()))
    }
}

/// The size in bytes of a variable, from asking for it with no buffer:
/// the firmware answers that the buffer is too small, with the size it
/// needs. Any other answer, success included, is an error.
pub fn variable_size_result(status: Status, data_size: usize) -> (r: crate::result::Result<usize>)
    ensures
        status@ == error_bit() + 5 ==> r == Ok::<Completion<usize>, Error>(
            Completion::Success(data_size),
        ),
        status@ != error_bit() + 5 ==> (r matches Err(e) && e.spec_status() == status),
{
    let too_small = Status::BUFFER_TOO_SMALL();
    proof {
        Status::lemma_view_injective(status, too_small);
    }
    if status == too_small {
        Ok(Completion::Success(data_size))
    } else {
        Err(Error::new(status, ()))
    }
}

/// `n` in decimal, padded with zeros to `width` digits.
pub open spec fn zero_padded(n: nat, width: nat) -> Seq<char> {
    pad_left(decimal(n), width, '0')
}

/// The text of the date and time of day of a time,
/// `YYYY-MM-DD hh:mm:ss.nnnnnnnnn`, each number padded with zeros.
pub open spec fn date_time_text(t: TimeFields) -> Seq<char> {
    zero_padded(t.year as nat, 4) + seq!['-'] + zero_padded(t.month as nat, 2) + seq!['-']
        + zero_padded(t.day as nat, 2) + seq![' '] + zero_padded(t.hour as nat, 2) + seq![':']
        + zero_padded(t.minute as nat, 2) + seq![':'] + zero_padded(t.second as nat, 2) + seq!['.']
        + zero_padded(t.nanosecond as nat, 9)
}

/// The text of a time zone that is a whole number of hours away from UTC:
/// `UTC+` and the signed number of hours.
pub open spec fn whole_hours_zone_text(time_zone: i16) -> Seq<char> {
    let hours = time_zone / 60;
    if hours < 0 {
        seq!['U', 'T', 'C', '+', '-'] + decimal((-hours) as nat)
    } else {
        seq!['U', 'T', 'C', '+'] + decimal(hours as nat)
    }
}

/// Appends `n`, padded with zeros to `width` digits.
fn append_zero_padded(out: &mut Vec<char>, n: u64, width: usize)
    ensures
        final(out)@ == old(out)@ + zero_padded(n as nat, width as nat),
{
    let mut digits: Vec<char> = Vec::new();
    append_decimal(&mut digits, n);
    proof {
        assert(digits@ =~= decimal(n as nat));
    }
    append_padded(out, &digits, width, '0');
}

impl Time {
    /// The text of the date and time of day, as a time is displayed:
    /// `YYYY-MM-DD hh:mm:ss.nnnnnnnnn`.
    pub fn date_time_text(&self) -> (s: String)
        ensures
            s@ == date_time_text(self@),
    {
        let mut out: Vec<char> = Vec::new();
        append_zero_padded(&mut out, self.year as u64, 4);
        out.push('-');
        append_zero_padded(&mut out, self.month as u64, 2);
        out.push('-');
        append_zero_padded(&mut out, self.day as u64, 2);
        out.push(' ');
        append_zero_padded(&mut out, self.hour as u64, 2);
        out.push(':');
        append_zero_padded(&mut out, self.minute as u64, 2);
        out.push(':');
        append_zero_padded(&mut out, self.second as u64, 2);
        out.push('.');
        append_zero_padded(&mut out, self.nanosecond as u64, 9);
        proof {
            assert(out@ =~= date_time_text(self@));
        }
        string_of(&out)
    }

    /// The text that follows the date and time when a time is displayed:
    /// ` (local)` for a local time, `UTC+` and the offset in hours when it
    /// is a whole number of hours; `None` when the offset has a fraction of
    /// an hour, which is displayed with one decimal.
    pub fn zone_text(&self) -> (r: Option<String>)
        ensures
            self@.time_zone == 2047 ==> (r matches Some(s) && s@ == seq![
                ' ',
                '(',
                'l',
                'o',
                'c',
                'a',
                'l',
                ')',
            ]),
            self@.time_zone != 2047 && self@.time_zone % 60 == 0 ==> (r matches Some(s) && s@
                == whole_hours_zone_text(self@.time_zone)),
            self@.time_zone != 2047 && self@.time_zone % 60 != 0 ==> r is None,
    {
        if self.time_zone == 2047 {
            let out = vec![' ', '(', 'l', 'o', 'c', 'a', 'l', ')'];
            let s = string_of(&out);
            proof {
                assert(s@ =~= seq![' ', '(', 'l', 'o', 'c', 'a', 'l', ')']);
            }
            Some(s)
        } else if self.time_zone % 60 == 0 {
            let hours: i16 = self.time_zone / 60;
            let mut out = vec!['U', 'T', 'C', '+'];
            if hours < 0 {
                out.push('-');
                append_decimal(&mut out, (-hours) as u64);
            } else {
                append_decimal(&mut out, hours as u64);
            }
            proof {
                assert(hours == self@.time_zone / 60);
                assert(out@ =~= whole_hours_zone_text(self@.time_zone));
            }
            Some(string_of(&out))
        } else {
            None
        }
    }
}

} // verus!
