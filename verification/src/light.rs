//! DualSense light control through the Linux hid-playstation LED interface.
//!
//! The kernel exposes the controller's RGB indicator as a multicolor LED under
//! `/sys/class/leds`. Writing `red green blue` values to `multi_intensity`
//! sends the corresponding light command to the controller.

use crate::paths::{join_path, path_in};
use crate::text;
use vstd::prelude::*;
use vstd::string::*;
use vstd::utf8::encode_utf8;

verus! {

/// The RGB indicator of a controller.
#[derive(Debug, PartialEq, Eq)]
pub struct ControllerLight {
    /// The bytes of the path of the LED's `multi_intensity` file.
    pub rgb_path: Vec<u8>,
}

/// An entry of an LED directory.
#[derive(Debug, PartialEq, Eq)]
pub struct LedEntry {
    /// The bytes of the entry's name.
    pub name: Vec<u8>,
    /// The entry holds a `multi_intensity` file.
    pub has_intensity: bool,
}

/// What has to be written to set the light.
#[derive(Debug, PartialEq, Eq)]
pub struct LightCommand {
    /// The bytes of the path of the file to write.
    pub path: Vec<u8>,
    pub contents: String,
}

/// The directory in which the kernel lists the LEDs of an event device.
pub open spec fn led_directory(event_name: Seq<char>) -> Seq<u8> {
    path_in(
        path_in(encode_utf8("/sys/class/input"@), encode_utf8(event_name)),
        encode_utf8("device/device/leds"@),
    )
}

/// The directory in which the kernel lists the LEDs of an event device.
pub fn led_directory_of(event_name: &str) -> (path: Vec<u8>)
    ensures
        path@ == led_directory(event_name@),
{
    let device = join_path("/sys/class/input".as_bytes(), event_name.as_bytes());
    join_path(device.as_slice(), "device/device/leds".as_bytes())
}

/// Where an entry of an LED directory keeps its colour.
pub open spec fn intensity_file(directory: Seq<u8>, name: Seq<u8>) -> Seq<u8> {
    path_in(path_in(directory, name), encode_utf8("multi_intensity"@))
}

/// Where an entry of an LED directory keeps its colour.
pub fn intensity_file_of(directory: &[u8], name: &[u8]) -> (path: Vec<u8>)
    ensures
        path@ == intensity_file(directory@, name@),
{
    let entry = join_path(directory, name);
    join_path(entry.as_slice(), "multi_intensity".as_bytes())
}

/// Where kernels that do not list the LED under the event device keep its
/// colour: only for devices that are named `event` and something.
pub open spec fn fallback_file(event_name: Seq<char>) -> Option<Seq<u8>> {
    if "event"@.is_prefix_of(event_name) {
        Some(
            intensity_file(
                encode_utf8("/sys/class/leds"@),
                encode_utf8(
                    "input"@ + event_name.skip("event"@.len() as int) + ":rgb:indicator"@,
                ),
            ),
        )
    } else {
        None
    }
}

/// Where kernels that do not list the LED under the event device keep its
/// colour.
pub fn fallback_file_of(event_name: &str) -> (path: Option<Vec<u8>>)
    ensures
        match path {
            Some(path) => fallback_file(event_name@) == Some(path@),
            None => fallback_file(event_name@) is None,
        },
{
    let chars = text::chars_of(event_name);
    if !text::begins_with(chars.as_slice(), "event") {
        return None;
    }
    let prefix = text::chars_of("event");
    let number = text::text_of(vstd::slice::slice_subrange(chars.as_slice(), prefix.len(), chars.len()));
    assert(number@ =~= event_name@.skip("event"@.len() as int));
    let mut name = text::joined("input", number.as_str());
    name.append(":rgb:indicator");
    Some(intensity_file_of("/sys/class/leds".as_bytes(), name.as_str().as_bytes()))
}

/// An entry is the RGB indicator of a controller.
pub open spec fn is_indicator(entry: LedEntry) -> bool {
    encode_utf8(":rgb:indicator"@).is_suffix_of(entry.name@) && entry.has_intensity
}

/// The name of the first RGB indicator among the entries.
pub open spec fn first_indicator(entries: Seq<LedEntry>) -> Option<Seq<u8>>
    decreases entries.len(),
{
    if entries.len() == 0 {
        None
    } else if is_indicator(entries[0]) {
        Some(entries[0].name@)
    } else {
        first_indicator(entries.drop_first())
    }
}

/// Where the colour of an event device's light is kept.
pub open spec fn light_file(
    event_name: Seq<char>,
    entries: Seq<LedEntry>,
    fallback_exists: bool,
) -> Option<Seq<u8>> {
    match first_indicator(entries) {
        Some(name) => Some(intensity_file(led_directory(event_name), name)),
        None if fallback_exists => fallback_file(event_name),
        None => None,
    }
}

fn ends_with(bytes: &[u8], suffix: &[u8]) -> (r: bool)
    ensures
        r == suffix@.is_suffix_of(bytes@),
{
    if suffix.len() > bytes.len() {
        return false;
    }
    let start: usize = bytes.len() - suffix.len();
    let mut i: usize = 0;
    while i < suffix.len()
        invariant
            i <= suffix.len(),
            start + suffix.len() == bytes.len(),
            forall|k: int| 0 <= k < i ==> bytes@[start + k] == suffix@[k],
        decreases suffix.len() - i,
    {
        if bytes[start + i] != suffix[i] {
            assert(bytes@.subrange(start as int, bytes@.len() as int)[i as int] != suffix@[i as int]);
            return false;
        }
        i = i + 1;
    }
    assert(bytes@.subrange(start as int, bytes@.len() as int) =~= suffix@);
    true
}

/// The text that sets a colour.
pub open spec fn intensities(red: u8, green: u8, blue: u8) -> Seq<char> {
    text::decimal(red as nat) + " "@ + text::decimal(green as nat) + " "@ + text::decimal(
        blue as nat,
    ) + "\n"@
}

/// Why the colour of a light cannot be told.
#[derive(Debug, Clone, Copy, PartialEq, Eq, Structural)]
pub enum LightError {
    InvalidValue,
    UnexpectedFormat,
}

impl LightError {
    /// The error in words.
    pub open spec fn words(self) -> Seq<char> {
        match self {
            LightError::InvalidValue => "invalid RGB LED intensity value"@,
            LightError::UnexpectedFormat => "unexpected RGB LED intensity format"@,
        }
    }

    /// The error in words.
    pub fn message(self) -> (message: String)
        ensures
            message@ == self.words(),
    {
        match self {
            LightError::InvalidValue => "invalid RGB LED intensity value".to_owned(),
            LightError::UnexpectedFormat => "unexpected RGB LED intensity format".to_owned(),
        }
    }
}

/// The colour that a `multi_intensity` file tells: exactly three bytes.
pub open spec fn told_color(contents: Seq<char>) -> Result<(u8, u8, u8), LightError> {
    let words = text::words(contents);
    if exists|i: int| 0 <= i < words.len() && text::byte_value(#[trigger] words[i]) is None {
        Err(LightError::InvalidValue)
    } else if words.len() != 3 {
        Err(LightError::UnexpectedFormat)
    } else {
        Ok(
            (
                text::byte_value(words[0])->0,
                text::byte_value(words[1])->0,
                text::byte_value(words[2])->0,
            ),
        )
    }
}

impl ControllerLight {
    /// Find the LED belonging to an evdev event device.
    ///
    /// `entries` is what the kernel lists in [`led_directory_of`] the device, and
    /// `fallback_exists` whether there is a file at [`fallback_file_of`] it. The
    /// LED is looked up through sysfs instead of assuming that the event number
    /// and the kernel input number are equal. Both numbers can change when a
    /// controller is unplugged and reconnected.
    pub fn from_event_path(event_name: &str, entries: &[LedEntry], fallback_exists: bool) -> (light:
        Option<ControllerLight>)
        ensures
            match light {
                Some(light) => light_file(event_name@, entries@, fallback_exists) == Some(
                    light.rgb_path@,
                ),
                None => light_file(event_name@, entries@, fallback_exists) is None,
            },
    {
        let mut i: usize = 0;
        assert(entries@.skip(0) == entries@);
        while i < entries.len()
            invariant
                i <= entries.len(),
                first_indicator(entries@) == first_indicator(entries@.skip(i as int)),
            decreases entries.len() - i,
        {
            let entry = &entries[i];
            assert(entries@.skip(i as int)[0] == *entry);
            assert(entries@.skip(i as int).drop_first() == entries@.skip(i + 1));
            if ends_with(entry.name.as_slice(), ":rgb:indicator".as_bytes()) && entry.has_intensity {
                let directory = led_directory_of(event_name);
                let rgb_path = intensity_file_of(directory.as_slice(), entry.name.as_slice());
                return Some(ControllerLight { rgb_path });
            }
            i = i + 1;
        }
        if !fallback_exists {
            return None;
        }
        match fallback_file_of(event_name) {
            Some(rgb_path) => Some(ControllerLight { rgb_path }),
            None => None,
        }
    }

    /// The colour that the contents of the light's file tell.
    pub fn current_rgb(&self, contents: &str) -> (color: Result<(u8, u8, u8), LightError>)
        ensures
            color == told_color(contents@),
    {
        let words = text::split_words(contents);
        let mut values: Vec<u8> = Vec::new();
        let mut i: usize = 0;
        while i < words.len()
            invariant
                i <= words.len(),
                words@.len() == text::words(contents@).len(),
                forall|k: int|
                    0 <= k < words@.len() ==> (#[trigger] words@[k])@ == text::words(contents@)[k],
                values@.len() == i,
                forall|k: int|
                    0 <= k < i ==> text::byte_value(#[trigger] text::words(contents@)[k]) == Some(
                        values@[k],
                    ),
            decreases words.len() - i,
        {
            assert(words@[i as int]@ == text::words(contents@)[i as int]);
            match text::parse_byte(words[i].as_slice()) {
                Some(value) => values.push(value),
                None => {
                    return Err(LightError::InvalidValue);
                },
            }
            i = i + 1;
        }
        if values.len() == 3 {
            Ok((values[0], values[1], values[2]))
        } else {
            Err(LightError::UnexpectedFormat)
        }
    }

    /// What sets the light to a colour.
    pub fn set_rgb(&self, red: u8, green: u8, blue: u8) -> (command: LightCommand)
        ensures
            command.path@ == self.rgb_path@,
            command.contents@ == intensities(red, green, blue),
    {
        let mut path: Vec<u8> = Vec::new();
        path.extend_from_slice(self.rgb_path.as_slice());
        assert(path@ =~= self.rgb_path@);
        let mut contents = text::decimal_text(red as u64);
        contents.append(" ");
        contents.append(text::decimal_text(green as u64).as_str());
        contents.append(" ");
        contents.append(text::decimal_text(blue as u64).as_str());
        contents.append("\n");
        LightCommand { path, contents }
    }

    /// What turns the light off.
    pub fn off(&self) -> (command: LightCommand)
        ensures
            command.path@ == self.rgb_path@,
            command.contents@ == intensities(0, 0, 0),
    {
        self.set_rgb(0, 0, 0)
    }
}

/// A colour without the number sign that may stand in front of it.
pub open spec fn hex_part(value: Seq<char>) -> Seq<char> {
    if value.len() > 0 && value[0] == '#' {
        value.skip(1)
    } else {
        value
    }
}

/// The text consists of six hexadecimal digits of either case.
pub open spec fn six_digits(hex: Seq<char>) -> bool {
    &&& hex.len() == 6
    &&& forall|i: int| 0 <= i < hex.len() ==> text::hex_value(#[trigger] hex[i]) is Some
}

/// The byte that two hexadecimal digits write.
pub open spec fn hex_byte(high: char, low: char) -> u8 {
    (16 * text::hex_value(high)->0 + text::hex_value(low)->0) as u8
}

/// The colour that a text names as `RRGGBB` or `#RRGGBB`.
pub open spec fn named_color(value: Seq<char>) -> Option<(u8, u8, u8)> {
    let hex = hex_part(value);
    if six_digits(hex) {
        Some((hex_byte(hex[0], hex[1]), hex_byte(hex[2], hex[3]), hex_byte(hex[4], hex[5])))
    } else {
        None
    }
}

fn hex_digit_value(c: char) -> (value: Option<u8>)
    ensures
        match value {
            Some(value) => value < 16 && text::hex_value(c) == Some(value as nat),
            None => text::hex_value(c) is None,
        },
{
    let code: u32 = c as u32;
    if 48 <= code && code <= 57 {
        Some((code - 48) as u8)
    } else if 65 <= code && code <= 70 {
        Some((code - 55) as u8)
    } else if 97 <= code && code <= 102 {
        Some((code - 87) as u8)
    } else {
        None
    }
}

fn parse_hex_byte(high: char, low: char) -> (value: Option<u8>)
    ensures
        match value {
            Some(value) => {
                &&& text::hex_value(high) is Some
                &&& text::hex_value(low) is Some
                &&& value == hex_byte(high, low)
            },
            None => text::hex_value(high) is None || text::hex_value(low) is None,
        },
{
    match (hex_digit_value(high), hex_digit_value(low)) {
        (Some(h), Some(l)) => Some(16 * h + l),
        _ => None,
    }
}

/// Reads a colour written as `RRGGBB` or `#RRGGBB`. Every other text names none.
pub fn parse_color(value: &str) -> (color: Option<(u8, u8, u8)>)
    ensures
        color == named_color(value@),
        color is Some <==> six_digits(hex_part(value@)),
{
    let chars = text::chars_of(value);
    let start: usize = if chars.len() > 0 && chars[0] == '#' {
        1
    } else {
        0
    };
    let ghost hex = hex_part(value@);
    assert(hex == chars@.skip(start as int));
    if chars.len() - start != 6 {
        return None;
    }
    let red = parse_hex_byte(chars[start], chars[start + 1]);
    let green = parse_hex_byte(chars[start + 2], chars[start + 3]);
    let blue = parse_hex_byte(chars[start + 4], chars[start + 5]);
    assert(forall|i: int| 0 <= i < 6 ==> #[trigger] hex[i] == chars@[start + i]);
    match (red, green, blue) {
        (Some(red), Some(green), Some(blue)) => Some((red, green, blue)),
        _ => None,
    }
}

/// A number sign in front of a colour makes no difference.
pub proof fn law_number_sign_makes_no_difference(value: Seq<char>)
    requires
        value.len() == 0 || value[0] != '#',
    ensures
        named_color(seq!['#'] + value) == named_color(value),
{
    assert(hex_part(seq!['#'] + value) =~= value);
}

/// The case of a colour's digits makes no difference.
pub proof fn law_case_makes_no_difference(a: Seq<char>, b: Seq<char>)
    requires
        text::lowered(a) == text::lowered(b),
    ensures
        named_color(a) == named_color(b),
{
    assert(text::lowered(a).len() == a.len() && text::lowered(b).len() == b.len());
    assert forall|i: int| 0 <= i < a.len() implies {
        &&& text::hex_value(#[trigger] a[i]) == text::hex_value(b[i])
        &&& (a[i] == '#' <==> b[i] == '#')
    } by {
        assert(text::lowered(a)[i] == text::lower(a[i]));
        assert(text::lowered(b)[i] == text::lower(b[i]));
    }
    let x = hex_part(a);
    let y = hex_part(b);
    let k = a.len() - x.len();
    assert(x == a.skip(k) && y == b.skip(k));
    assert forall|i: int| 0 <= i < x.len() implies text::hex_value(#[trigger] x[i])
        == text::hex_value(y[i]) by {
        assert(x[i] == a[k + i]);
        assert(y[i] == b[k + i]);
    }
    if six_digits(x) {
        assert forall|i: int| 0 <= i < y.len() implies text::hex_value(#[trigger] y[i]) is Some by {
            assert(text::hex_value(x[i]) is Some);
        }
    }
    if six_digits(y) {
        assert forall|i: int| 0 <= i < x.len() implies text::hex_value(#[trigger] x[i]) is Some by {
            assert(text::hex_value(y[i]) is Some);
        }
    }
}

/// The light reads back what was written to it: the contents that set a colour
/// tell that colour.
pub proof fn law_light_reads_back_what_was_written(red: u8, green: u8, blue: u8)
    ensures
        told_color(intensities(red, green, blue)) == Ok::<(u8, u8, u8), LightError>(
            (red, green, blue),
        ),
{
    let r = text::decimal(red as nat);
    let g = text::decimal(green as nat);
    let b = text::decimal(blue as nat);
    text::lemma_byte_read_back(red);
    text::lemma_byte_read_back(green);
    text::lemma_byte_read_back(blue);
    reveal_strlit(" ");
    reveal_strlit("\n");
    let third = b + "\n"@;
    let second = g + (" "@ + third);
    let all = r + (" "@ + second);
    assert(intensities(red, green, blue) =~= all);
    assert((" "@ + second).drop_first() =~= second);
    assert((" "@ + third).drop_first() =~= third);
    assert("\n"@.drop_first() =~= Seq::<char>::empty());
    text::lemma_first_word(r, " "@ + second);
    text::lemma_first_word(g, " "@ + third);
    text::lemma_first_word(b, "\n"@);
    assert(text::words(Seq::<char>::empty()) =~= Seq::<Seq<char>>::empty());
    assert(text::words(all) =~= seq![r, g, b]);
}

/// A colour is read back from the six digits that write it, in whatever case.
pub proof fn law_written_color_is_read_back(value: Seq<char>, red: u8, green: u8, blue: u8)
    requires
        text::lowered(value) == text::lowered(
            text::hex_pair(red) + text::hex_pair(green) + text::hex_pair(blue),
        ),
    ensures
        named_color(value) == Some((red, green, blue)),
{
    let written = text::hex_pair(red) + text::hex_pair(green) + text::hex_pair(blue);
    lemma_hex_pair_read_back(red);
    lemma_hex_pair_read_back(green);
    lemma_hex_pair_read_back(blue);
    assert(hex_part(written) == written);
    assert(written[0] == text::hex_pair(red)[0] && written[1] == text::hex_pair(red)[1]);
    assert(written[2] == text::hex_pair(green)[0] && written[3] == text::hex_pair(green)[1]);
    assert(written[4] == text::hex_pair(blue)[0] && written[5] == text::hex_pair(blue)[1]);
    assert(named_color(written) == Some((red, green, blue)));
    law_case_makes_no_difference(value, written);
}

proof fn lemma_hex_pair_read_back(byte: u8)
    ensures
        text::hex_pair(byte).len() == 2,
        text::hex_value(text::hex_pair(byte)[0]) is Some,
        text::hex_value(text::hex_pair(byte)[1]) is Some,
        hex_byte(text::hex_pair(byte)[0], text::hex_pair(byte)[1]) == byte,
        text::hex_pair(byte)[0] != '#',
{
}

} // verus!
