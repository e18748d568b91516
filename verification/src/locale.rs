//! The locale-adaptive ring: three adaptive rings, one in anonymous memory,
//! one in files, one in shared memory, all built at creation, with one live
//! at a time. A migration moves the items in flight to the target and flips a
//! tag every attached process reads.
//!
//! Strict mode migrates when the caller says so. Managed mode attaches a
//! sidecar that scans at the caller's interval and migrates to the locale the
//! caller requested once the hysteresis has elapsed.

use vstd::prelude::*;

use crate::arguments::{given, invalid_argument};
use crate::error::{
    adaptive_code, adaptive_code_report, answers, fail, ring_code, ring_code_report, told,
    AdaptiveError, LastError, Refused, Report, RingError, SUBETHA_E_INVALID_ARGUMENT,
    SUBETHA_E_NOT_SUPPORTED, SUBETHA_E_WRONG_KIND,
};
use crate::handle::Object;
use crate::text::{dec, push_dec};

verus! {

/// Locale: anonymous memory, this process only.
pub const SUBETHA_LOCALE_ANON: u32 = 0;

/// Locale: files, page-cached and persistent.
pub const SUBETHA_LOCALE_FILE: u32 = 1;

/// Locale: named shared memory, RAM-resident.
pub const SUBETHA_LOCALE_SHM: u32 = 2;

/// A snapshot of a locale-adaptive ring.
#[allow(non_camel_case_types)]
#[derive(Clone, Copy, Default, Debug, PartialEq, Eq)]
pub struct subetha_locale_stats {
    /// The mode this handle was created in.
    pub mode: u32,
    /// The live locale, one of the `SUBETHA_LOCALE_` constants.
    pub current_locale: u32,
    /// The live ordering mode.
    pub ordering_mode: u32,
    /// Bumped by every migration; shared across processes.
    pub locale_generation: u64,
    /// Items in the live backing, read without a lock.
    pub approx_len: u64,
    /// Cross-producer inversions across the three backings; zero unstamped.
    pub inversions: u64,
    /// Migrations the managed-mode sidecar issued; zero in strict mode.
    pub sidecar_migrations: u64,
    /// Waits refused because every waiter slot was in use.
    pub waker_full: u64,
    /// Whether the backings carry ordering stamps.
    pub stamped: bool,
}

/// Where a ring's live backing is.
#[derive(Clone, Copy, Debug, PartialEq, Eq, Structural)]
pub enum RingLocale {
    /// Anonymous memory.
    Anon,
    /// Files.
    File,
    /// Named shared memory.
    ShmFs,
}

/// The number of a locale.
pub open spec fn locale_number(locale: RingLocale) -> u32 {
    match locale {
        RingLocale::Anon => SUBETHA_LOCALE_ANON,
        RingLocale::File => SUBETHA_LOCALE_FILE,
        RingLocale::ShmFs => SUBETHA_LOCALE_SHM,
    }
}

/// The number of a locale.
pub fn locale_constant(locale: RingLocale) -> (number: u32)
    ensures
        number == locale_number(locale),
{
    match locale {
        RingLocale::Anon => SUBETHA_LOCALE_ANON,
        RingLocale::File => SUBETHA_LOCALE_FILE,
        RingLocale::ShmFs => SUBETHA_LOCALE_SHM,
    }
}

/// The locale a number stands for, if it stands for one.
pub open spec fn locale_outcome(locale: u32) -> Result<RingLocale, Report> {
    if locale == SUBETHA_LOCALE_ANON {
        Ok(RingLocale::Anon)
    } else if locale == SUBETHA_LOCALE_FILE {
        Ok(RingLocale::File)
    } else if locale == SUBETHA_LOCALE_SHM {
        Ok(RingLocale::ShmFs)
    } else {
        Err(invalid_argument("locale "@ + dec(locale as nat) + " is not a locale"@))
    }
}

/// The locale a number stands for.
pub fn locale_from(last: &mut LastError, locale: u32) -> (named: Result<RingLocale, i32>)
    ensures
        answers(named, locale_outcome(locale), old(last)@, final(last)@),
{
    match locale {
        SUBETHA_LOCALE_ANON => Ok(RingLocale::Anon),
        SUBETHA_LOCALE_FILE => Ok(RingLocale::File),
        SUBETHA_LOCALE_SHM => Ok(RingLocale::ShmFs),
        other => {
            let mut text: String = String::from_str("locale ");
            push_dec(&mut text, other as u64);
            text.append(" is not a locale");
            Err(fail(last, SUBETHA_E_INVALID_ARGUMENT, text.as_str()))
        },
    }
}

/// Each locale has a number of its own that stands for it.
pub proof fn a_locale_is_named_by_its_number(locale: RingLocale)
    ensures
        locale_outcome(locale_number(locale)) == Ok::<RingLocale, Report>(locale),
{
}

/// Where a ring's ordering stamps come from.
#[derive(Clone, Copy, Debug, PartialEq, Eq, Structural)]
pub enum Stamps {
    /// Nowhere: the ring is unstamped.
    Off,
    /// The host's default source.
    HostDefault,
    /// Another source, by its number.
    Other(u32),
}

/// A declared contract: what a ring promises of its use, each zero where
/// nothing is declared.
#[derive(Clone, Copy, Debug, PartialEq, Eq, Structural)]
pub struct Contract {
    /// The most producers.
    pub max_producers: u64,
    /// The most consumers.
    pub max_consumers: u64,
    /// The ordering.
    pub ordering: u64,
    /// The capacity.
    pub capacity_bound: u64,
}

/// The options a ring is made with, as far as they decide anything here.
#[derive(Clone, Copy, Debug, PartialEq, Eq, Structural)]
pub struct RingOptions {
    /// Where stamps come from.
    pub stamps: Stamps,
    /// What the ring promises.
    pub contract: Contract,
    /// Bytes in a block of a frame region.
    pub frame_block: u64,
    /// Blocks in a frame region.
    pub frame_blocks: u64,
    /// Whether a descriptor for shared memory is given.
    pub shm_sddl_given: bool,
    /// How often a sidecar scans, in microseconds.
    pub scan_interval_us: u64,
}

/// The mode an object is made in.
#[derive(Clone, Copy, Debug, PartialEq, Eq, Structural)]
pub struct Mode {
    /// Its number.
    pub number: u32,
    /// Whether it runs background work.
    pub managed: bool,
}

/// What a locale ring is made from, once its arguments have been read.
#[derive(Clone, Copy, Debug, PartialEq, Eq, Structural)]
pub struct Plan {
    /// Whether the ring carries ordering stamps.
    pub stamped: bool,
    /// Producers it can register.
    pub max_producers: usize,
    /// Consumers it can register.
    pub max_consumers: usize,
    /// Slots in it.
    pub capacity: usize,
    /// The mode's number.
    pub mode: u32,
    /// The interval of the sidecar it runs, where it runs one.
    pub sidecar_us: Option<u64>,
}

/// What the options alone say against a locale ring, if anything: it stamps
/// from the host's default source or not at all, and declares no contract,
/// no frame region and no descriptor.
pub open spec fn options_refusal(options: RingOptions) -> Option<Report> {
    if options.stamps is Other {
        Some(
            invalid_argument(
                "stamps "@ + dec(options.stamps->Other_0 as nat)
                    + ": a locale ring stamps from the host's default source or not at all"@,
            ),
        )
    } else if options.contract != (Contract { max_producers: 0, max_consumers: 0, ordering: 0, capacity_bound: 0 }) {
        Some(invalid_argument("a locale ring declares no contract"@))
    } else if options.frame_block != 0 || options.frame_blocks != 0 {
        Some(invalid_argument("a locale ring takes no frame region geometry"@))
    } else if options.shm_sddl_given {
        Some(
            invalid_argument(
                "a locale ring's regions take the platform's default descriptor; shm_sddl must be null"@,
            ),
        )
    } else {
        None
    }
}

/// What making or opening a locale ring answers before any backing is
/// touched.
pub open spec fn plan_outcome<'a>(
    initialized: Result<(), Refused>,
    options: Result<RingOptions, Refused>,
    base: Result<&'a str, Refused>,
    mode: Result<Mode, Refused>,
    max_producers: u32,
    max_consumers: u32,
    capacity: Result<usize, Refused>,
) -> Result<(&'a str, Plan), Report> {
    if initialized is Err {
        Err(initialized->Err_0.report())
    } else if options is Err {
        Err(options->Err_0.report())
    } else if base is Err {
        Err(base->Err_0.report())
    } else if mode is Err {
        Err(mode->Err_0.report())
    } else if options_refusal(options->Ok_0) is Some {
        Err(options_refusal(options->Ok_0)->Some_0)
    } else if mode->Ok_0.managed && options->Ok_0.scan_interval_us == 0 {
        Err(
            invalid_argument(
                "managed mode needs scan_interval_us; the library names no default"@,
            ),
        )
    } else if max_producers == 0 || max_consumers == 0 {
        Err(invalid_argument("max_producers and max_consumers must be at least 1"@))
    } else if capacity is Err {
        Err(capacity->Err_0.report())
    } else {
        Ok(
            (
                base->Ok_0,
                Plan {
                    stamped: options->Ok_0.stamps == Stamps::HostDefault,
                    max_producers: max_producers as usize,
                    max_consumers: max_consumers as usize,
                    capacity: capacity->Ok_0,
                    mode: mode->Ok_0.number,
                    sidecar_us: if mode->Ok_0.managed {
                        Some(options->Ok_0.scan_interval_us)
                    } else {
                        None
                    },
                },
            ),
        )
    }
}

/// Whether the options ask for stamps, or what is against them.
fn checked_options(last: &mut LastError, options: &RingOptions) -> (stamped: Result<bool, i32>)
    ensures
        answers(
            stamped,
            match options_refusal(*options) {
                Some(report) => Err(report),
                None => Ok(options.stamps == Stamps::HostDefault),
            },
            old(last)@,
            final(last)@,
        ),
{
    let stamped: bool = match options.stamps {
        Stamps::Off => false,
        Stamps::HostDefault => true,
        Stamps::Other(other) => {
            let mut text: String = String::from_str("stamps ");
            push_dec(&mut text, other as u64);
            text.append(": a locale ring stamps from the host's default source or not at all");
            return Err(fail(last, SUBETHA_E_INVALID_ARGUMENT, text.as_str()));
        },
    };
    let c: &Contract = &options.contract;
    if c.max_producers != 0 || c.max_consumers != 0 || c.ordering != 0 || c.capacity_bound != 0 {
        return Err(fail(last, SUBETHA_E_INVALID_ARGUMENT, "a locale ring declares no contract"));
    }
    if options.frame_block != 0 || options.frame_blocks != 0 {
        return Err(fail(last, SUBETHA_E_INVALID_ARGUMENT, "a locale ring takes no frame region geometry"));
    }
    if options.shm_sddl_given {
        return Err(
            fail(
                last,
                SUBETHA_E_INVALID_ARGUMENT,
                "a locale ring's regions take the platform's default descriptor; shm_sddl must be null",
            ),
        );
    }
    Ok(stamped)
}

/// Read what a locale ring is made from: the base path, and the plan.
fn plan<'a>(
    last: &mut LastError,
    initialized: Result<(), Refused>,
    options: Result<RingOptions, Refused>,
    base: Result<&'a str, Refused>,
    mode: Result<Mode, Refused>,
    max_producers: u32,
    max_consumers: u32,
    capacity: Result<usize, Refused>,
) -> (planned: Result<(&'a str, Plan), i32>)
    ensures
        answers(
            planned,
            plan_outcome(initialized, options, base, mode, max_producers, max_consumers, capacity),
            old(last)@,
            final(last)@,
        ),
{
    if let Err(code) = given(last, initialized) {
        return Err(code);
    }
    let options: RingOptions = match given(last, options) {
        Ok(options) => options,
        Err(code) => {
            return Err(code);
        },
    };
    let base: &'a str = match given(last, base) {
        Ok(base) => base,
        Err(code) => {
            return Err(code);
        },
    };
    let mode: Mode = match given(last, mode) {
        Ok(mode) => mode,
        Err(code) => {
            return Err(code);
        },
    };
    let stamped: bool = match checked_options(last, &options) {
        Ok(stamped) => stamped,
        Err(code) => {
            return Err(code);
        },
    };
    if mode.managed && options.scan_interval_us == 0 {
        return Err(
            fail(
                last,
                SUBETHA_E_INVALID_ARGUMENT,
                "managed mode needs scan_interval_us; the library names no default",
            ),
        );
    }
    if max_producers == 0 || max_consumers == 0 {
        return Err(
            fail(last, SUBETHA_E_INVALID_ARGUMENT, "max_producers and max_consumers must be at least 1"),
        );
    }
    let capacity: usize = match given(last, capacity) {
        Ok(capacity) => capacity,
        Err(code) => {
            return Err(code);
        },
    };
    let sidecar_us: Option<u64> = if mode.managed {
        Some(options.scan_interval_us)
    } else {
        None
    };
    Ok(
        (
            base,
            Plan {
                stamped,
                max_producers: max_producers as usize,
                max_consumers: max_consumers as usize,
                capacity,
                mode: mode.number,
                sidecar_us,
            },
        ),
    )
}

/// What a locale ring is created from, or the refusal of its first argument
/// at fault. The ring starts in anonymous memory; stamps come from the
/// host's default source or not at all, and the ring declares no contract.
pub fn subetha_locale_ring_create<'a>(
    last: &mut LastError,
    initialized: Result<(), Refused>,
    options: Result<RingOptions, Refused>,
    base: Result<&'a str, Refused>,
    mode: Result<Mode, Refused>,
    max_producers: u32,
    max_consumers: u32,
    capacity: Result<usize, Refused>,
) -> (planned: Result<(&'a str, Plan), i32>)
    ensures
        answers(
            planned,
            plan_outcome(initialized, options, base, mode, max_producers, max_consumers, capacity),
            old(last)@,
            final(last)@,
        ),
{
    plan(last, initialized, options, base, mode, max_producers, max_consumers, capacity)
}

/// What a locale ring another process created is attached with: the same
/// arguments, under the same rules. Whether it is stamped must match the
/// creator's choice.
pub fn subetha_locale_ring_open<'a>(
    last: &mut LastError,
    initialized: Result<(), Refused>,
    options: Result<RingOptions, Refused>,
    base: Result<&'a str, Refused>,
    mode: Result<Mode, Refused>,
    max_producers: u32,
    max_consumers: u32,
    capacity: Result<usize, Refused>,
) -> (planned: Result<(&'a str, Plan), i32>)
    ensures
        answers(
            planned,
            plan_outcome(initialized, options, base, mode, max_producers, max_consumers, capacity),
            old(last)@,
            final(last)@,
        ),
{
    plan(last, initialized, options, base, mode, max_producers, max_consumers, capacity)
}

/// A plan runs a sidecar exactly in managed mode, and then one that scans at
/// an interval the caller chose.
pub proof fn a_sidecar_runs_only_in_managed_mode<'a>(
    initialized: Result<(), Refused>,
    options: Result<RingOptions, Refused>,
    base: Result<&'a str, Refused>,
    mode: Result<Mode, Refused>,
    max_producers: u32,
    max_consumers: u32,
    capacity: Result<usize, Refused>,
)
    ensures
        plan_outcome(initialized, options, base, mode, max_producers, max_consumers, capacity) matches Ok(planned)
            ==> {
            &&& planned.1.sidecar_us is Some <==> mode->Ok_0.managed
            &&& planned.1.sidecar_us matches Some(us) ==> us > 0
            &&& planned.1.max_producers > 0 && planned.1.max_consumers > 0
        },
{
}

/// The payload behind a locale-adaptive ring's handle.
pub fn with_locale<'a, P>(last: &mut LastError, object: &'a Object<P>) -> (payload: Result<&'a P, i32>)
    ensures
        answers(
            payload,
            match *object {
                Object::LocaleRing(p) => Ok(&p),
                _ => Err(told(SUBETHA_E_WRONG_KIND, "the handle does not name a locale-adaptive ring"@)),
            },
            old(last)@,
            final(last)@,
        ),
{
    match object {
        Object::LocaleRing(p) => Ok(p),
        _ => Err(fail(last, SUBETHA_E_WRONG_KIND, "the handle does not name a locale-adaptive ring")),
    }
}

/// Make the object for a locale-adaptive ring that was built or opened, or answer with why
/// it could not be.
pub fn place<P>(last: &mut LastError, opened: Result<P, RingError>) -> (object: Result<Object<P>, i32>)
    ensures
        answers(
            object,
            match opened {
                Ok(p) => Ok(Object::LocaleRing(p)),
                Err(e) => Err(ring_code_report(e)),
            },
            old(last)@,
            final(last)@,
        ),
{
    match opened {
        Ok(p) => Ok(Object::LocaleRing(p)),
        Err(e) => Err(ring_code(last, e)),
    }
}

/// A registration's number, for an out-parameter.
pub fn registered(last: &mut LastError, went: Result<usize, AdaptiveError>) -> (id: Result<u32, i32>)
    ensures
        answers(
            id,
            match went {
                Ok(id) => Ok(id as u32),
                Err(e) => Err(adaptive_code_report(e)),
            },
            old(last)@,
            final(last)@,
        ),
{
    match went {
        Ok(id) => Ok(id as u32),
        Err(e) => Err(adaptive_code(last, e)),
    }
}

/// The locale to ask the sidecar for. Strict mode has no sidecar to ask.
pub fn subetha_locale_ring_request(last: &mut LastError, locale: u32, has_sidecar: bool) -> (target: Result<
    RingLocale,
    i32,
>)
    ensures
        answers(
            target,
            match locale_outcome(locale) {
                Err(report) => Err(report),
                Ok(named) => if has_sidecar {
                    Ok(named)
                } else {
                    Err(told(SUBETHA_E_NOT_SUPPORTED, "strict mode has no sidecar; migrate directly"@))
                },
            },
            old(last)@,
            final(last)@,
        ),
{
    let named: RingLocale = match locale_from(last, locale) {
        Ok(named) => named,
        Err(code) => {
            return Err(code);
        },
    };
    if has_sidecar {
        Ok(named)
    } else {
        Err(fail(last, SUBETHA_E_NOT_SUPPORTED, "strict mode has no sidecar; migrate directly"))
    }
}

/// A name with a suffix put behind it.
fn with_suffix(base: &str, suffix: &str) -> (name: String)
    ensures
        name@ == base@ + suffix@,
{
    let mut name: String = String::from_str(base);
    name.append(suffix);
    name
}

/// What an unlink removes: the name its file backing goes under, and the
/// files beside it, in order.
pub fn subetha_locale_ring_unlink(base: &str) -> (names: (String, Vec<String>))
    ensures
        names.0@ == base@ + ".locale.file.ring"@,
        names.1@.len() == 4,
        names.1@[0]@ == base@ + ".locale.tag.bin"@,
        names.1@[1]@ == base@ + ".locale.gen.bin"@,
        names.1@[2]@ == base@ + ".cwaker.bin"@,
        names.1@[3]@ == base@ + ".pwaker.bin"@,
{
    let mut beside: Vec<String> = Vec::new();
    beside.push(with_suffix(base, ".locale.tag.bin"));
    beside.push(with_suffix(base, ".locale.gen.bin"));
    beside.push(with_suffix(base, ".cwaker.bin"));
    beside.push(with_suffix(base, ".pwaker.bin"));
    (with_suffix(base, ".locale.file.ring"), beside)
}

/// A snapshot, from what the ring and its sidecar say. A ring without an
/// ordering mode reads as mode zero, and one without a sidecar as having
/// migrated nothing.
pub fn stats(
    mode: u32,
    current_locale: RingLocale,
    ordering_mode: Option<u32>,
    locale_generation: u64,
    approx_len: usize,
    inversions: u64,
    sidecar_migrations: Option<u64>,
    waker_full: u64,
    stamped: bool,
) -> (stats: subetha_locale_stats)
    ensures
        stats == (subetha_locale_stats {
            mode,
            current_locale: locale_number(current_locale),
            ordering_mode: match ordering_mode {
                Some(number) => number,
                None => 0,
            },
            locale_generation,
            approx_len: approx_len as u64,
            inversions,
            sidecar_migrations: match sidecar_migrations {
                Some(n) => n,
                None => 0,
            },
            waker_full,
            stamped,
        }),
{
    subetha_locale_stats {
        mode,
        current_locale: locale_constant(current_locale),
        ordering_mode: ordering_mode.unwrap_or(0),
        locale_generation,
        approx_len: approx_len as u64,
        inversions,
        sidecar_migrations: sidecar_migrations.unwrap_or(0),
        waker_full,
        stamped,
    }
}

/// A call on a locale-adaptive ring reaches what stands behind a handle to a
/// locale-adaptive ring, and nothing behind any other handle.
pub proof fn only_a_locale_ring_is_reached<P>(last: &mut LastError, object: &Object<P>, reached: Result<&P, i32>)
    requires
        call_ensures(with_locale::<P>, (last, object), reached),
    ensures
        reached is Ok <==> *object is LocaleRing,
        reached matches Ok(payload) ==> *object == Object::LocaleRing(*payload) && final(last)@ == old(last)@,
        reached matches Err(code) ==> code == SUBETHA_E_WRONG_KIND
            && final(last)@ == "the handle does not name a locale-adaptive ring"@,
{
}

/// A ring that opened is placed as what it is; one that did not is answered
/// exactly as its error is.
pub proof fn a_ring_that_opened_is_placed_as_one<P>(
    last: &mut LastError,
    other: &mut LastError,
    opened: Result<P, RingError>,
    answer: Result<Object<P>, i32>,
    code: i32,
)
    requires
        call_ensures(place::<P>, (last, opened), answer),
        opened matches Err(e) ==> call_ensures(ring_code, (other, e), code),
        old(last)@ == old(other)@,
    ensures
        opened matches Ok(value) ==> answer == Ok::<Object<P>, i32>(Object::LocaleRing(value))
            && final(last)@ == old(last)@,
        opened is Err ==> answer == Err::<Object<P>, i32>(code) && final(last)@ == final(other)@,
{
}

/// A snapshot reports each thing it was handed under that thing's own name.
pub proof fn a_snapshot_reports_each_thing_as_it_is(
    mode: u32,
    current_locale: RingLocale,
    ordering_mode: Option<u32>,
    locale_generation: u64,
    approx_len: usize,
    inversions: u64,
    sidecar_migrations: Option<u64>,
    waker_full: u64,
    stamped: bool,
    shown: subetha_locale_stats,
)
    requires
        call_ensures(stats, (mode, current_locale, ordering_mode, locale_generation, approx_len, inversions,
            sidecar_migrations, waker_full, stamped), shown),
    ensures
        shown.mode == mode,
        shown.current_locale == locale_number(current_locale),
        shown.ordering_mode == match ordering_mode { Some(number) => number, None => 0, },
        shown.locale_generation == locale_generation,
        shown.approx_len == approx_len as u64,
        shown.inversions == inversions,
        shown.sidecar_migrations == match sidecar_migrations { Some(n) => n, None => 0, },
        shown.waker_full == waker_full,
        shown.stamped == stamped,
{
}

/// Removing a locale ring removes its ring and the four files beside it.
pub proof fn a_locale_ring_leaves_five_files(base: &str, names: (String, Vec<String>))
    requires
        call_ensures(subetha_locale_ring_unlink, (base,), names),
    ensures
        names.0@ == base@ + ".locale.file.ring"@,
        names.1@.len() == 4,
        names.1@[0]@ == base@ + ".locale.tag.bin"@,
        names.1@[1]@ == base@ + ".locale.gen.bin"@,
        names.1@[2]@ == base@ + ".cwaker.bin"@,
        names.1@[3]@ == base@ + ".pwaker.bin"@,
{
}

/// Three locales have the numbers zero, one and two; a number names a locale
/// exactly when it is one of theirs, and then the locale that has it.
pub proof fn a_locale_and_its_number_are_the_same(
    last: &mut LastError,
    locale: u32,
    named: Result<RingLocale, i32>,
    number: u32,
)
    requires
        call_ensures(locale_from, (last, locale), named),
        named matches Ok(n) ==> call_ensures(locale_constant, (n,), number),
    ensures
        named is Ok <==> locale <= 2,
        named is Ok ==> number == locale && final(last)@ == old(last)@,
        locale == 0 ==> named == Ok::<RingLocale, i32>(RingLocale::Anon),
        locale == 1 ==> named == Ok::<RingLocale, i32>(RingLocale::File),
        locale == 2 ==> named == Ok::<RingLocale, i32>(RingLocale::ShmFs),
        named matches Err(code) ==> code == SUBETHA_E_INVALID_ARGUMENT,
{
}

/// A ring is created for exactly the producers, the consumers and the capacity
/// the caller gave, in the mode the caller gave, stamped exactly when stamps
/// from the host were asked for, and with a sidecar at the caller's interval
/// exactly in managed mode.
pub proof fn a_ring_is_created_as_the_caller_asked<'a>(
    last: &mut LastError,
    initialized: Result<(), Refused>,
    options: Result<RingOptions, Refused>,
    base: Result<&'a str, Refused>,
    mode: Result<Mode, Refused>,
    max_producers: u32,
    max_consumers: u32,
    capacity: Result<usize, Refused>,
    planned: Result<(&'a str, Plan), i32>,
)
    requires
        call_ensures(subetha_locale_ring_create, (last, initialized, options, base, mode, max_producers,
            max_consumers, capacity), planned),
    ensures
        planned matches Ok(made) ==> made.0 == base->Ok_0,
        planned matches Ok(made) ==> made.1.max_producers == max_producers && made.1.max_consumers == max_consumers,
        planned matches Ok(made) ==> made.1.capacity == capacity->Ok_0 && made.1.mode == mode->Ok_0.number,
        planned matches Ok(made) ==> (made.1.stamped <==> options->Ok_0.stamps is HostDefault),
        planned matches Ok(made) ==> (made.1.sidecar_us is Some <==> mode->Ok_0.managed),
        planned matches Ok(made) ==> (made.1.sidecar_us matches Some(us)
            ==> us == options->Ok_0.scan_interval_us && us > 0),
        planned is Ok ==> final(last)@ == old(last)@,
{
}

/// A ring is created exactly when every argument was read, the options ask for
/// nothing a locale ring does not do, a managed one has an interval and there
/// is at least one producer and one consumer; the first argument that could
/// not be read is the one answered for.
pub proof fn a_ring_that_can_be_is_created<'a>(
    last: &mut LastError,
    initialized: Result<(), Refused>,
    options: Result<RingOptions, Refused>,
    base: Result<&'a str, Refused>,
    mode: Result<Mode, Refused>,
    max_producers: u32,
    max_consumers: u32,
    capacity: Result<usize, Refused>,
    planned: Result<(&'a str, Plan), i32>,
)
    requires
        call_ensures(subetha_locale_ring_create, (last, initialized, options, base, mode, max_producers,
            max_consumers, capacity), planned),
    ensures
        planned is Ok <==> {
            &&& initialized is Ok && options is Ok && base is Ok && mode is Ok && capacity is Ok
            &&& !(options->Ok_0.stamps is Other)
            &&& options->Ok_0.contract.max_producers == 0 && options->Ok_0.contract.max_consumers == 0
            &&& options->Ok_0.contract.ordering == 0 && options->Ok_0.contract.capacity_bound == 0
            &&& options->Ok_0.frame_block == 0 && options->Ok_0.frame_blocks == 0
            &&& !options->Ok_0.shm_sddl_given
            &&& mode->Ok_0.managed ==> options->Ok_0.scan_interval_us > 0
            &&& max_producers > 0 && max_consumers > 0
        },
        initialized is Err ==> planned is Err && planned->Err_0 == initialized->Err_0.code
            && final(last)@ == initialized->Err_0.report().leaves(old(last)@),
        initialized is Ok && options is Err ==> planned is Err && planned->Err_0 == options->Err_0.code
            && final(last)@ == options->Err_0.report().leaves(old(last)@),
        initialized is Ok && options is Ok && base is Err ==> planned is Err
            && planned->Err_0 == base->Err_0.code && final(last)@ == base->Err_0.report().leaves(old(last)@),
        initialized is Ok && options is Ok && base is Ok && mode is Err ==> planned is Err
            && planned->Err_0 == mode->Err_0.code && final(last)@ == mode->Err_0.report().leaves(old(last)@),
        planned is Err && initialized is Ok && options is Ok && base is Ok && mode is Ok && capacity is Ok
            ==> planned->Err_0 == SUBETHA_E_INVALID_ARGUMENT,
{
}

/// A ring is opened for exactly the producers, the consumers and the capacity
/// the caller gave, in the mode the caller gave, stamped exactly when stamps
/// from the host were asked for, and with a sidecar at the caller's interval
/// exactly in managed mode.
pub proof fn a_ring_is_opened_as_the_caller_asked<'a>(
    last: &mut LastError,
    initialized: Result<(), Refused>,
    options: Result<RingOptions, Refused>,
    base: Result<&'a str, Refused>,
    mode: Result<Mode, Refused>,
    max_producers: u32,
    max_consumers: u32,
    capacity: Result<usize, Refused>,
    planned: Result<(&'a str, Plan), i32>,
)
    requires
        call_ensures(subetha_locale_ring_open, (last, initialized, options, base, mode, max_producers,
            max_consumers, capacity), planned),
    ensures
        planned matches Ok(made) ==> made.0 == base->Ok_0,
        planned matches Ok(made) ==> made.1.max_producers == max_producers && made.1.max_consumers == max_consumers,
        planned matches Ok(made) ==> made.1.capacity == capacity->Ok_0 && made.1.mode == mode->Ok_0.number,
        planned matches Ok(made) ==> (made.1.stamped <==> options->Ok_0.stamps is HostDefault),
        planned matches Ok(made) ==> (made.1.sidecar_us is Some <==> mode->Ok_0.managed),
        planned matches Ok(made) ==> (made.1.sidecar_us matches Some(us)
            ==> us == options->Ok_0.scan_interval_us && us > 0),
        planned is Ok ==> final(last)@ == old(last)@,
{
}

/// A ring is opened exactly when every argument was read, the options ask for
/// nothing a locale ring does not do, a managed one has an interval and there
/// is at least one producer and one consumer; the first argument that could
/// not be read is the one answered for.
pub proof fn a_ring_that_can_be_is_opened<'a>(
    last: &mut LastError,
    initialized: Result<(), Refused>,
    options: Result<RingOptions, Refused>,
    base: Result<&'a str, Refused>,
    mode: Result<Mode, Refused>,
    max_producers: u32,
    max_consumers: u32,
    capacity: Result<usize, Refused>,
    planned: Result<(&'a str, Plan), i32>,
)
    requires
        call_ensures(subetha_locale_ring_open, (last, initialized, options, base, mode, max_producers,
            max_consumers, capacity), planned),
    ensures
        planned is Ok <==> {
            &&& initialized is Ok && options is Ok && base is Ok && mode is Ok && capacity is Ok
            &&& !(options->Ok_0.stamps is Other)
            &&& options->Ok_0.contract.max_producers == 0 && options->Ok_0.contract.max_consumers == 0
            &&& options->Ok_0.contract.ordering == 0 && options->Ok_0.contract.capacity_bound == 0
            &&& options->Ok_0.frame_block == 0 && options->Ok_0.frame_blocks == 0
            &&& !options->Ok_0.shm_sddl_given
            &&& mode->Ok_0.managed ==> options->Ok_0.scan_interval_us > 0
            &&& max_producers > 0 && max_consumers > 0
        },
        initialized is Err ==> planned is Err && planned->Err_0 == initialized->Err_0.code
            && final(last)@ == initialized->Err_0.report().leaves(old(last)@),
        initialized is Ok && options is Err ==> planned is Err && planned->Err_0 == options->Err_0.code
            && final(last)@ == options->Err_0.report().leaves(old(last)@),
        initialized is Ok && options is Ok && base is Err ==> planned is Err
            && planned->Err_0 == base->Err_0.code && final(last)@ == base->Err_0.report().leaves(old(last)@),
        initialized is Ok && options is Ok && base is Ok && mode is Err ==> planned is Err
            && planned->Err_0 == mode->Err_0.code && final(last)@ == mode->Err_0.report().leaves(old(last)@),
        planned is Err && initialized is Ok && options is Ok && base is Ok && mode is Ok && capacity is Ok
            ==> planned->Err_0 == SUBETHA_E_INVALID_ARGUMENT,
{
}

/// A registration that went well answers with its id, and one that did not
/// answers exactly as its error does.
pub proof fn a_registration_answers_with_its_id(
    last: &mut LastError,
    other: &mut LastError,
    went: Result<usize, AdaptiveError>,
    id: Result<u32, i32>,
    code: i32,
)
    requires
        call_ensures(registered, (last, went), id),
        went matches Err(e) ==> call_ensures(adaptive_code, (other, e), code),
        old(last)@ == old(other)@,
    ensures
        went matches Ok(n) ==> id is Ok && (n <= u32::MAX ==> id->Ok_0 == n) && final(last)@ == old(last)@,
        went is Err ==> id == Err::<u32, i32>(code) && final(last)@ == final(other)@,
{
}

/// A migration to a locale there is is asked for exactly where a sidecar runs;
/// a number that names no locale is refused first.
pub proof fn a_migration_is_asked_of_a_sidecar(
    last: &mut LastError,
    locale: u32,
    has_sidecar: bool,
    target: Result<RingLocale, i32>,
)
    requires
        call_ensures(subetha_locale_ring_request, (last, locale, has_sidecar), target),
    ensures
        target is Ok <==> locale <= 2 && has_sidecar,
        locale == 0 && has_sidecar ==> target == Ok::<RingLocale, i32>(RingLocale::Anon),
        locale == 1 && has_sidecar ==> target == Ok::<RingLocale, i32>(RingLocale::File),
        locale == 2 && has_sidecar ==> target == Ok::<RingLocale, i32>(RingLocale::ShmFs),
        target is Ok ==> final(last)@ == old(last)@,
        locale > 2 ==> target is Err && target->Err_0 == SUBETHA_E_INVALID_ARGUMENT,
        locale <= 2 && !has_sidecar ==> target is Err && target->Err_0 == SUBETHA_E_NOT_SUPPORTED,
{
}

/// The numbers callers give and are given, as they were built against them.
pub proof fn the_numbers_are_the_ones_callers_know()
    ensures
        SUBETHA_LOCALE_ANON == 0,
        SUBETHA_LOCALE_FILE == 1,
        SUBETHA_LOCALE_SHM == 2,
{
}

/// A refusal says what was given and what it should have been.
pub proof fn a_locale_at_fault_is_told(last: &mut LastError, locale: u32, named: Result<RingLocale, i32>)
    requires
        call_ensures(locale_from, (last, locale), named),
    ensures
        named is Err ==> final(last)@ == "locale "@ + dec(locale as nat) + " is not a locale"@,
{
}

} // verus!
