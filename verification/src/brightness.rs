//! The brightness of display backlights.
//!
//! A backlight has a level between 0 and a maximum that the device fixes.
//! The functions here read the levels from the text of the device's
//! attributes, turn levels into percentages and back, and say what is to be
//! shown or asked of the session manager.

use vstd::arithmetic::div_mod::lemma_fundamental_div_mod_converse;
use vstd::prelude::*;

use crate::percent::{
    cap, capped, clamp_percent, lemma_level_rounded, lemma_level_shown, lemma_level_within,
    lemma_minus, lemma_nearest_percent_range, lemma_plus, lemma_whole_is_exact, level_at, lost_at,
    nearest_percent, percent_den, percent_num, round_half_even, spec_level_at, Percent,
};
use crate::text::{parse_u32, spec_parse_u32, trimmed};

verus! {

/// The bus name of the session manager.
pub const DESTINATION: &'static str = "org.freedesktop.login1";

/// The object that stands for the caller's own session.
pub const SESSION_PATH: &'static str = "/org/freedesktop/login1/session/auto";

/// The interface of a session.
pub const INTERFACE: &'static str = "org.freedesktop.login1.Session";

/// The method that sets the brightness of a device.
pub const METHOD: &'static str = "SetBrightness";

/// The class of the devices that are backlights.
pub const DEVICE_CLASS: &'static str = "backlight";

/// How many seconds the session manager is given to answer.
pub const TIMEOUT_SECS: u64 = 3;

/// The state of one backlight device.
#[derive(Clone, Debug)]
pub struct BacklightInfo {
    pub name: String,
    pub brightness: u32,
    pub max_brightness: u32,
    pub actual_brightness: u32,
}

/// What a [`BacklightInfo`] holds.
pub struct BacklightView {
    pub name: Seq<char>,
    pub brightness: u32,
    pub max_brightness: u32,
    pub actual_brightness: u32,
}

impl View for BacklightInfo {
    type V = BacklightView;

    open spec fn view(&self) -> BacklightView {
        BacklightView {
            name: self.name@,
            brightness: self.brightness,
            max_brightness: self.max_brightness,
            actual_brightness: self.actual_brightness,
        }
    }
}

/// The text of the attributes of one backlight device, as read.
#[derive(Clone, Debug)]
pub struct Reading {
    pub name: String,
    pub brightness: String,
    pub max_brightness: String,
    pub actual_brightness: String,
}

/// A call of the session manager that sets the brightness of a device.
#[derive(Clone, Debug)]
pub struct SetBrightness {
    pub destination: &'static str,
    pub path: &'static str,
    pub interface: &'static str,
    pub method: &'static str,
    pub timeout_secs: u64,
    pub device_class: &'static str,
    pub device_name: String,
    pub brightness: u32,
}

/// One entry of the list of devices.
#[derive(Clone, Debug)]
pub struct Listing {
    pub name: String,
    pub brightness: u32,
    /// The brightness as the whole percent that is shown.
    pub percent: u64,
    pub max_brightness: u32,
    pub actual_brightness: u32,
}

/// Why a command could not be carried out.
#[derive(Copy, Clone, Debug, PartialEq, Eq, Structural)]
pub enum BacklightError {
    /// There is no backlight device.
    NoBacklights,
    /// The text of the attribute `brightness` is no number.
    Brightness,
    /// The text of the attribute `max_brightness` is no number.
    MaxBrightness,
    /// The text of the attribute `actual_brightness` is no number.
    ActualBrightness,
}

/// The device whose attributes could not be read, and what failed.
#[derive(Copy, Clone, Debug, PartialEq, Eq, Structural)]
pub struct DeviceError {
    /// The place of the device among the readings.
    pub device: usize,
    pub error: BacklightError,
}

impl BacklightError {
    /// The text shown to the user.
    pub open spec fn spec_message(self) -> Seq<char> {
        match self {
            BacklightError::NoBacklights => "No backlights found"@,
            BacklightError::Brightness => "failed to read brightness"@,
            BacklightError::MaxBrightness => "failed to read max brightness"@,
            BacklightError::ActualBrightness => "failed to read actual brightness"@,
        }
    }

    /// The text shown to the user.
    pub fn message(&self) -> (text: &'static str)
        ensures
            text@ == self.spec_message(),
    {
        match self {
            BacklightError::NoBacklights => "No backlights found",
            BacklightError::Brightness => "failed to read brightness",
            BacklightError::MaxBrightness => "failed to read max brightness",
            BacklightError::ActualBrightness => "failed to read actual brightness",
        }
    }
}

/// What the user asks for.
#[derive(Copy, Clone, Debug)]
pub enum Cli {
    Get,
    SetPercent { percent: u8 },
    Increase { amount: u8 },
    Decrease { amount: u8 },
    List,
}

/// What is to be done about a command.
#[derive(Clone, Debug)]
pub enum Action {
    /// Show this number.
    Print(u64),
    /// Make this call.
    Save(SetBrightness),
    /// Show these devices.
    List(Vec<Listing>),
}

/// The level that a device with the maximum `max` is set to for `percent`
/// percent: that share of the maximum, rounded down, and 1 where this is 0,
/// so that the display never goes black.
pub open spec fn brightness_at(percent: int, max: int) -> int {
    if spec_level_at(percent, max) == 0 {
        1
    } else {
        spec_level_at(percent, max)
    }
}

/// The whole percent that a device at `brightness` of `max` is moved to by
/// `delta` percent: its percentage is moved, brought into the range from 0
/// to 100 and rounded to the nearest whole percent, a tie going up.
pub open spec fn stepped_percent(brightness: int, max: int, delta: int) -> int {
    nearest_percent(percent_num(brightness, max) + delta * percent_den(max), percent_den(max))
}

/// The level that a device at `brightness` of `max` gets when it is moved
/// by `delta` percent.
pub open spec fn stepped(brightness: int, max: int, delta: int) -> int {
    brightness_at(stepped_percent(brightness, max, delta), max)
}

/// The whole percent that is shown for a device at `brightness` of `max`.
pub open spec fn shown_percent(brightness: int, max: int) -> int {
    round_half_even(percent_num(brightness, max), percent_den(max))
}

/// The call that sets the device named `name` to `brightness`.
pub open spec fn is_call_for(call: SetBrightness, name: Seq<char>, brightness: int) -> bool {
    &&& call.destination@ == DESTINATION@
    &&& call.path@ == SESSION_PATH@
    &&& call.interface@ == INTERFACE@
    &&& call.method@ == METHOD@
    &&& call.timeout_secs == TIMEOUT_SECS
    &&& call.device_class@ == DEVICE_CLASS@
    &&& call.device_name@ == name
    &&& call.brightness == brightness
}

/// The entry that lists `info`.
pub open spec fn is_listing_of(listing: Listing, info: BacklightView) -> bool {
    &&& listing.name@ == info.name
    &&& listing.brightness == info.brightness
    &&& listing.percent == shown_percent(info.brightness as int, info.max_brightness as int)
    &&& listing.max_brightness == info.max_brightness
    &&& listing.actual_brightness == info.actual_brightness
}

/// What the attributes of a device say, or which of them is no number.
pub open spec fn spec_backlight_info(
    name: Seq<char>,
    brightness: Seq<char>,
    max_brightness: Seq<char>,
    actual_brightness: Seq<char>,
) -> Result<BacklightView, BacklightError> {
    match spec_parse_u32(trimmed(brightness)) {
        None => Err(BacklightError::Brightness),
        Some(brightness) => match spec_parse_u32(trimmed(max_brightness)) {
            None => Err(BacklightError::MaxBrightness),
            Some(max_brightness) => match spec_parse_u32(trimmed(actual_brightness)) {
                None => Err(BacklightError::ActualBrightness),
                Some(actual_brightness) => Ok(
                    BacklightView { name, brightness, max_brightness, actual_brightness },
                ),
            },
        },
    }
}

/// What the reading `reading` says.
pub open spec fn spec_reading(reading: Reading) -> Result<BacklightView, BacklightError> {
    spec_backlight_info(
        reading.name@,
        reading.brightness@,
        reading.max_brightness@,
        reading.actual_brightness@,
    )
}

/// Whether `brightness` is a level that a device with the maximum `max` is
/// set to for some whole percent: the level for its own nearest percent.
pub open spec fn on_step(brightness: int, max: int) -> bool {
    brightness == brightness_at(stepped_percent(brightness, max, 0), max)
}

/// Whether the level that a device with the maximum `max` is set to for
/// `percent` percent has `percent` as its nearest whole percent.
pub open spec fn exact_at(percent: int, max: int) -> bool {
    stepped_percent(brightness_at(percent, max), max, 0) == percent
}

/// Setting a percentage and reading it back.
///
/// Where the level for `percent` percent is not 0, and so is stored as it
/// is, it is shown as `percent` again exactly where rounding the level down
/// has lost less than half a percent of the maximum, or just half a percent
/// while `percent` is even.
pub proof fn lemma_set_then_get(max: int, percent: int)
    requires
        0 < max,
        0 <= percent <= 100,
        spec_level_at(percent, max) > 0,
    ensures
        shown_percent(brightness_at(percent, max), max) == percent <==> (2 * lost_at(percent, max)
            < max || (2 * lost_at(percent, max) == max && percent % 2 == 0)),
{
    lemma_level_shown(percent, max);
}

/// Setting a percentage and reading it back, on a device with at least 200
/// levels: every percentage from 0 to 100 is shown as it was set.
pub proof fn lemma_set_then_get_fine(max: int, percent: int)
    requires
        200 <= max,
        0 <= percent <= 100,
    ensures
        shown_percent(brightness_at(percent, max), max) == percent,
{
    if percent == 0 {
        assert(spec_level_at(0, max) == 0) by (nonlinear_arith);
        assert(100int / max == 0 && 100int % max == 100) by {
            lemma_fundamental_div_mod_converse(100, max, 0, 100);
        }
    } else {
        assert(percent * max >= 100) by (nonlinear_arith)
            requires
                percent >= 1,
                max >= 200,
        ;
        lemma_level_shown(percent, max);
    }
}

/// A step moves the nearest whole percent by its amount, and stops at 0
/// and at 100.
pub proof fn lemma_step_percent(brightness: int, max: int, delta: int)
    requires
        0 < max,
        0 <= brightness,
        delta < 0 ==> brightness <= max,
    ensures
        stepped_percent(brightness, max, delta) == clamp_percent(
            stepped_percent(brightness, max, 0) + delta,
        ),
{
    if delta >= 0 {
        lemma_plus(100 * brightness, max, delta);
    } else {
        lemma_minus(100 * brightness, max, -delta);
        assert((-delta) * max == -(delta * max)) by (nonlinear_arith);
    }
}

/// Raising the brightness and lowering it by the same amount.
///
/// The brightness comes back to where it was, provided that it was a level
/// that a whole percent is set to, that raising it did not stop at 100, and
/// that the device is fine enough for the level in between to have the
/// percent it was set for as its nearest.
pub proof fn lemma_increase_then_decrease(brightness: int, max: int, amount: int)
    requires
        0 < max,
        0 <= brightness,
        0 <= amount <= 100,
        on_step(brightness, max),
        stepped_percent(brightness, max, 0) + amount <= 100,
        exact_at(stepped_percent(brightness, max, 0) + amount, max),
    ensures
        stepped(stepped(brightness, max, amount), max, -amount) == brightness,
{
    let percent = stepped_percent(brightness, max, 0);
    lemma_nearest_percent_range(100 * brightness, max);
    lemma_step_percent(brightness, max, amount);
    let raised = brightness_at(percent + amount, max);
    lemma_level_within(percent + amount, max);
    lemma_step_percent(raised, max, -amount);
}

/// On a device with more than 200 levels, the level that a whole percent
/// is set to has that percent as its nearest.
pub proof fn lemma_exact_when_fine(percent: int, max: int)
    requires
        200 < max,
        0 <= percent <= 100,
    ensures
        exact_at(percent, max),
{
    if percent == 0 {
        assert(spec_level_at(0, max) == 0) by (nonlinear_arith);
        assert(100int / max == 0 && 100int % max == 100) by {
            lemma_fundamental_div_mod_converse(100, max, 0, 100);
        }
    } else {
        assert(percent * max >= 100) by (nonlinear_arith)
            requires
                percent >= 1,
                max >= 200,
        ;
        lemma_level_rounded(percent, max);
        lemma_level_within(percent, max);
        let level = spec_level_at(percent, max);
        if percent == 100 {
            assert(level == max) by (nonlinear_arith)
                requires
                    level == 100 * max / 100,
            ;
            lemma_whole_is_exact(100, max);
        } else {
            assert(100 * level < 100 * max) by (nonlinear_arith)
                requires
                    level == percent * max / 100,
                    0 <= percent < 100,
                    max > 0,
            ;
        }
    }
}

/// Raising the brightness and lowering it by the same amount, on a device
/// with more than 200 levels.
///
/// The brightness comes back to where it was exactly where it was a level
/// that a whole percent is set to and raising it did not stop at 100.
pub proof fn lemma_increase_then_decrease_fine(brightness: int, max: int, amount: int)
    requires
        200 < max,
        0 <= brightness,
        0 <= amount <= 100,
    ensures
        stepped(stepped(brightness, max, amount), max, -amount) == brightness <==> (on_step(
            brightness,
            max,
        ) && stepped_percent(brightness, max, 0) + amount <= 100),
{
    let percent = stepped_percent(brightness, max, 0);
    lemma_nearest_percent_range(100 * brightness, max);
    lemma_step_percent(brightness, max, amount);
    let raised_percent = clamp_percent(percent + amount);
    let raised = brightness_at(raised_percent, max);
    lemma_level_within(raised_percent, max);
    lemma_exact_when_fine(raised_percent, max);
    lemma_step_percent(raised, max, -amount);
    let lowered_percent = clamp_percent(raised_percent - amount);
    lemma_exact_when_fine(lowered_percent, max);
}

impl BacklightInfo {
    /// The brightness as a percentage of the maximum: `100 * brightness /
    /// max_brightness`, and 0 for a device whose maximum is 0.
    pub fn brightness_percent(&self) -> (percent: Percent)
        ensures
            self.max_brightness > 0 ==> percent.num() == 100 * self.brightness && percent.den()
                == self.max_brightness,
            self.max_brightness == 0 ==> percent.num() == 0 && percent.den() == 1,
    {
        Percent::of(self.brightness, self.max_brightness)
    }

    /// Sets the brightness to `percent` percent of the maximum, and to the
    /// maximum where `percent` is more than 100. The level is rounded down,
    /// but never to 0.
    pub fn set_brightness_percent(&mut self, percent: u8)
        ensures
            final(self).brightness == brightness_at(capped(percent), old(self).max_brightness as int),
            final(self).name == old(self).name,
            final(self).max_brightness == old(self).max_brightness,
            final(self).actual_brightness == old(self).actual_brightness,
    {
        let percent = cap(percent);
        let max: u32 = self.max_brightness;
        let level: u64 = level_at(percent, max);
        assert(level <= max) by (nonlinear_arith)
            requires
                level == percent * max / 100,
                0 <= percent <= 100,
                0 <= max,
        ;
        self.brightness = level as u32;
        // Brightness value 0 turns the screen completely black.
        // This is usually not desired by the user.
        if self.brightness == 0 {
            self.brightness = 1;
        }
    }

    /// The call that makes the device take on the brightness held here.
    pub fn save_brightness(&self) -> (call: SetBrightness)
        ensures
            is_call_for(call, self.name@, self.brightness as int),
    {
        SetBrightness {
            destination: DESTINATION,
            path: SESSION_PATH,
            interface: INTERFACE,
            method: METHOD,
            timeout_secs: TIMEOUT_SECS,
            device_class: DEVICE_CLASS,
            device_name: self.name.clone(),
            brightness: self.brightness,
        }
    }
}

/// What the command `cli` does, given the state `infos` of the devices.
///
/// Every command but `List` is about the first device, and fails with
/// [`BacklightError::NoBacklights`] where there is none.
pub fn run(cli: &Cli, infos: Vec<BacklightInfo>) -> (action: Result<Action, BacklightError>)
    ensures
        match *cli {
            Cli::List => action matches Ok(Action::List(listings)) && listings@.len()
                == infos@.len() && forall|i: int|
                0 <= i < infos@.len() ==> is_listing_of(#[trigger] listings@[i], infos@[i]@),
            _ => infos@.len() == 0 <==> action == Err::<Action, _>(BacklightError::NoBacklights),
        },
        infos@.len() > 0 ==> match *cli {
            Cli::Get => action matches Ok(Action::Print(shown)) && shown == shown_percent(
                infos@[0].brightness as int,
                infos@[0].max_brightness as int,
            ),
            Cli::SetPercent { percent } => action matches Ok(Action::Save(call)) && is_call_for(
                call,
                infos@[0].name@,
                brightness_at(capped(percent), infos@[0].max_brightness as int),
            ),
            Cli::Increase { amount } => action matches Ok(Action::Save(call)) && is_call_for(
                call,
                infos@[0].name@,
                stepped(
                    infos@[0].brightness as int,
                    infos@[0].max_brightness as int,
                    capped(amount),
                ),
            ),
            Cli::Decrease { amount } => action matches Ok(Action::Save(call)) && is_call_for(
                call,
                infos@[0].name@,
                stepped(
                    infos@[0].brightness as int,
                    infos@[0].max_brightness as int,
                    -capped(amount),
                ),
            ),
            Cli::List => true,
        },
{
    match cli {
        Cli::Get => match cmd_get(infos) {
            Ok(shown) => Ok(Action::Print(shown)),
            Err(error) => Err(error),
        },
        Cli::SetPercent { percent } => match cmd_set(infos, *percent) {
            Ok(call) => Ok(Action::Save(call)),
            Err(error) => Err(error),
        },
        Cli::Increase { amount } => match cmd_increase(infos, *amount) {
            Ok(call) => Ok(Action::Save(call)),
            Err(error) => Err(error),
        },
        Cli::Decrease { amount } => match cmd_decrease(infos, *amount) {
            Ok(call) => Ok(Action::Save(call)),
            Err(error) => Err(error),
        },
        Cli::List => Ok(Action::List(cmd_list(&infos))),
    }
}

/// The brightness of the first device, as the whole percent that is shown.
pub fn cmd_get(infos: Vec<BacklightInfo>) -> (shown: Result<u64, BacklightError>)
    ensures
        infos@.len() == 0 <==> shown == Err::<u64, _>(BacklightError::NoBacklights),
        infos@.len() > 0 ==> shown == Ok::<u64, BacklightError>(
            shown_percent(
                infos@[0].brightness as int,
                infos@[0].max_brightness as int,
            ) as u64,
        ),
{
    let info = match guess_best_backlight(infos) {
        Ok(info) => info,
        Err(error) => {
            return Err(error);
        },
    };
    Ok(info.brightness_percent().displayed())
}

/// The call that sets the first device to `percent` percent.
pub fn cmd_set(infos: Vec<BacklightInfo>, percent: u8) -> (call: Result<
    SetBrightness,
    BacklightError,
>)
    ensures
        infos@.len() == 0 <==> call == Err::<SetBrightness, _>(BacklightError::NoBacklights),
        infos@.len() > 0 ==> call is Ok && is_call_for(
            call->Ok_0,
            infos@[0].name@,
            brightness_at(capped(percent), infos@[0].max_brightness as int),
        ),
{
    let mut info = match guess_best_backlight(infos) {
        Ok(info) => info,
        Err(error) => {
            return Err(error);
        },
    };
    info.set_brightness_percent(percent);
    Ok(info.save_brightness())
}

/// The call that raises the first device by `amount` percent, and by 100
/// where `amount` is more.
pub fn cmd_increase(infos: Vec<BacklightInfo>, amount: u8) -> (call: Result<
    SetBrightness,
    BacklightError,
>)
    ensures
        infos@.len() == 0 <==> call == Err::<SetBrightness, _>(BacklightError::NoBacklights),
        infos@.len() > 0 ==> call is Ok && is_call_for(
            call->Ok_0,
            infos@[0].name@,
            stepped(
                infos@[0].brightness as int,
                infos@[0].max_brightness as int,
                capped(amount),
            ),
        ),
{
    let amount = cap(amount);
    let mut info = match guess_best_backlight(infos) {
        Ok(info) => info,
        Err(error) => {
            return Err(error);
        },
    };
    let new_percent = info.brightness_percent().plus(amount);
    info.set_brightness_percent(new_percent);
    Ok(info.save_brightness())
}

/// The call that lowers the first device by `amount` percent, and by 100
/// where `amount` is more.
pub fn cmd_decrease(infos: Vec<BacklightInfo>, amount: u8) -> (call: Result<
    SetBrightness,
    BacklightError,
>)
    ensures
        infos@.len() == 0 <==> call == Err::<SetBrightness, _>(BacklightError::NoBacklights),
        infos@.len() > 0 ==> call is Ok && is_call_for(
            call->Ok_0,
            infos@[0].name@,
            stepped(
                infos@[0].brightness as int,
                infos@[0].max_brightness as int,
                -capped(amount),
            ),
        ),
{
    let amount = cap(amount);
    let mut info = match guess_best_backlight(infos) {
        Ok(info) => info,
        Err(error) => {
            return Err(error);
        },
    };
    let new_percent = info.brightness_percent().minus(amount);
    proof {
        let den = percent_den(info.max_brightness as int);
        assert((-(amount as int)) * den == -(amount * den)) by (nonlinear_arith);
    }
    info.set_brightness_percent(new_percent);
    Ok(info.save_brightness())
}

/// The device that commands are about: the first one.
pub fn guess_best_backlight(infos: Vec<BacklightInfo>) -> (best: Result<
    BacklightInfo,
    BacklightError,
>)
    ensures
        infos@.len() == 0 <==> best == Err::<BacklightInfo, _>(BacklightError::NoBacklights),
        infos@.len() > 0 ==> best == Ok::<BacklightInfo, BacklightError>(infos@[0]),
{
    let mut infos = infos;
    if infos.len() == 0 {
        return Err(BacklightError::NoBacklights);
    }
    Ok(infos.remove(0))
}

/// The list of the devices, in the order of `infos`.
pub fn cmd_list(infos: &Vec<BacklightInfo>) -> (listings: Vec<Listing>)
    ensures
        listings@.len() == infos@.len(),
        forall|i: int| 0 <= i < infos@.len() ==> is_listing_of(#[trigger] listings@[i], infos@[i]@),
{
    let mut listings: Vec<Listing> = Vec::new();
    let mut i: usize = 0;
    while i < infos.len()
        invariant
            i <= infos.len(),
            listings@.len() == i,
            forall|j: int| 0 <= j < i ==> is_listing_of(#[trigger] listings@[j], infos@[j]@),
        decreases infos.len() - i,
    {
        let info = &infos[i];
        listings.push(
            Listing {
                name: info.name.clone(),
                brightness: info.brightness,
                percent: info.brightness_percent().displayed(),
                max_brightness: info.max_brightness,
                actual_brightness: info.actual_brightness,
            },
        );
        i += 1;
    }
    listings
}

/// The state of every device, from the text of its attributes.
///
/// Fails at the first device of which an attribute is no number, and says
/// which device and which attribute.
pub fn get_all_backlight_infos(readings: &Vec<Reading>) -> (infos: Result<
    Vec<BacklightInfo>,
    DeviceError,
>)
    ensures
        match infos {
            Ok(infos) => infos@.len() == readings@.len() && forall|i: int|
                0 <= i < readings@.len() ==> spec_reading(readings@[i]) == Ok::<
                    BacklightView,
                    BacklightError,
                >((#[trigger] infos@[i])@),
            Err(failed) => failed.device < readings@.len() && spec_reading(
                readings@[failed.device as int],
            ) == Err::<BacklightView, _>(failed.error) && forall|i: int|
                0 <= i < failed.device ==> (#[trigger] spec_reading(readings@[i])) is Ok,
        },
{
    let mut infos: Vec<BacklightInfo> = Vec::new();
    let mut i: usize = 0;
    while i < readings.len()
        invariant
            i <= readings.len(),
            infos@.len() == i,
            forall|j: int|
                0 <= j < i ==> spec_reading(readings@[j]) == Ok::<BacklightView, BacklightError>(
                    (#[trigger] infos@[j])@,
                ),
            forall|j: int| 0 <= j < i ==> (#[trigger] spec_reading(readings@[j])) is Ok,
        decreases readings.len() - i,
    {
        let reading = &readings[i];
        match get_backlight_info(
            reading.name.as_str(),
            reading.brightness.as_str(),
            reading.max_brightness.as_str(),
            reading.actual_brightness.as_str(),
        ) {
            Ok(info) => {
                infos.push(info);
            },
            Err(error) => {
                return Err(DeviceError { device: i, error });
            },
        }
        i += 1;
    }
    Ok(infos)
}

/// The state of the device named `name`, from the text of its attributes.
///
/// Fails where an attribute is no number, and says which: the first of
/// `brightness`, `max_brightness` and `actual_brightness` to be none.
pub fn get_backlight_info(
    name: &str,
    brightness: &str,
    max_brightness: &str,
    actual_brightness: &str,
) -> (info: Result<BacklightInfo, BacklightError>)
    ensures
        match spec_backlight_info(name@, brightness@, max_brightness@, actual_brightness@) {
            Ok(view) => info is Ok && info->Ok_0@ == view,
            Err(error) => info == Err::<BacklightInfo, _>(error),
        },
{
    let brightness = match read_u32(brightness) {
        Some(level) => level,
        None => {
            return Err(BacklightError::Brightness);
        },
    };
    let max_brightness = match read_u32(max_brightness) {
        Some(level) => level,
        None => {
            return Err(BacklightError::MaxBrightness);
        },
    };
    let actual_brightness = match read_u32(actual_brightness) {
        Some(level) => level,
        None => {
            return Err(BacklightError::ActualBrightness);
        },
    };
    Ok(BacklightInfo { name: name.to_owned(), brightness, max_brightness, actual_brightness })
}

/// The number that the text of an attribute writes, if it writes one.
pub fn read_u32(content: &str) -> (value: Option<u32>)
    ensures
        value == spec_parse_u32(trimmed(content@)),
{
    parse_u32(content)
}

} // verus!
