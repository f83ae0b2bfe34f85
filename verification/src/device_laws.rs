//! What a controller, its light and its microphone are known by, and where their
//! files are, said in the names and numbers that the system uses.

use crate::calibration::calibration_file;
use crate::device::{auxiliary_complaint, IdentityView};
use crate::focus::instance_directory;
use crate::light::{
    fallback_file, first_indicator, hex_part, intensities, intensity_file, is_indicator,
    law_written_color_is_read_back, led_directory, light_file, named_color, told_color, LedEntry,
    LightError,
};
use crate::microphone::{
    device_likeness, is_best, likeness, MicrophoneAction, MicrophoneEvent,
    MicrophoneStep, MicrophoneView, Stage,
};
use crate::outputs::OutputView;
use crate::text;
use crate::text_laws::{
    all_blank, is_word, law_bytes_are_read_from_decimal_numbers, law_lower_case_keeps_the_places,
    law_paths_are_joined_by_one_separator, law_text_is_found_where_it_stands,
    law_words_are_told_apart, spaced,
};
use vstd::prelude::*;
use vstd::utf8::encode_utf8;

verus! {

/// A name holds a word, in whatever case, wherever it stands.
pub proof fn law_names_are_found_in_any_case(
    device: IdentityView,
    front: Seq<char>,
    word: Seq<char>,
    back: Seq<char>,
)
    requires
        device.name == front + word + back,
    ensures
        device.named(text::lowered(word)),
{
    law_lower_case_keeps_the_places(front + word, back);
    law_lower_case_keeps_the_places(front, word);
    law_text_is_found_where_it_stands(
        text::lowered(front),
        text::lowered(word),
        text::lowered(back),
        text::lowered(front),
    );
}

/// Sony's devices with one of the controller's two numbers belong to a DualSense,
/// and so do those that have `dualsense` in their names; no others do.
pub proof fn law_controllers_are_known_by_their_numbers(device: IdentityView)
    ensures
        device.vendor == 0x054c && device.product == 0x0ce6 ==> device.dualsense(),
        device.vendor == 0x054c && device.product == 0x0df2 ==> device.dualsense(),
        device.vendor == 0x054c && device.named("dualsense"@) ==> device.dualsense(),
        device.vendor != 0x054c ==> !device.dualsense(),
        device.product != 0x0ce6 && device.product != 0x0df2 && !device.named("dualsense"@)
            ==> !device.dualsense(),
{
}

/// A part of a DualSense is its gamepad unless its name speaks of a touchpad, a
/// motion sensor or a headset jack: then, and only then, it is another part.
pub proof fn law_other_parts_are_known_by_their_names(device: IdentityView)
    ensures
        device.dualsense() ==> device.gamepad() != device.auxiliary(),
        !device.dualsense() ==> !device.gamepad() && !device.auxiliary(),
        device.named("touchpad"@) ==> !device.gamepad(),
        device.named("motion sensor"@) ==> !device.gamepad(),
        device.named("headset jack"@) ==> !device.gamepad(),
        device.auxiliary() ==> device.named("touchpad"@) || device.named("motion sensor"@)
            || device.named("headset jack"@),
{
}

/// A complaint about another part begins with the path.
pub proof fn law_complaints_begin_with_the_path(path: Seq<char>)
    ensures
        path.is_prefix_of(auxiliary_complaint(path)),
        auxiliary_complaint(path).skip(path.len() as int)
            == " is a DualSense auxiliary device; use the main gamepad event device instead"@,
{
    assert(auxiliary_complaint(path).take(path.len() as int) =~= path);
    assert(auxiliary_complaint(path).skip(path.len() as int)
        =~= " is a DualSense auxiliary device; use the main gamepad event device instead"@);
}

/// The bytes of a text are those of its parts.
pub proof fn lemma_encoded_parts(a: Seq<char>, b: Seq<char>)
    ensures
        encode_utf8(a + b) == encode_utf8(a) + encode_utf8(b),
    decreases a.len(),
{
    if a.len() == 0 {
        assert(a + b =~= b);
        assert(encode_utf8(a) + encode_utf8(b) =~= encode_utf8(b));
    } else {
        assert((a + b)[0] == a[0]);
        assert((a + b).drop_first() =~= a.drop_first() + b);
        lemma_encoded_parts(a.drop_first(), b);
        assert(encode_utf8(a + b) =~= encode_utf8(a) + encode_utf8(b));
    }
}

proof fn lemma_slash_bytes(c: u32)
    by (bit_vector)
    requires
        c != 0x2f,
    ensures
        c <= 0x7f ==> (c & 0x7f) as u8 != 0x2f,
        (0xc0u8 | ((c >> 6) & 0x1f) as u8) != 0x2f,
        (0xe0u8 | ((c >> 12) & 0x0f) as u8) != 0x2f,
        (0xf0u8 | ((c >> 18) & 0x07) as u8) != 0x2f,
        (0x80u8 | (c & 0x3f) as u8) != 0x2f,
{
}

/// No character but the slash begins or ends with its byte.
proof fn lemma_slash_alone(c: char)
    requires
        c != '/',
    ensures
        vstd::utf8::encode_scalar(c as u32).len() > 0,
        vstd::utf8::encode_scalar(c as u32)[0] != 0x2f,
        vstd::utf8::encode_scalar(c as u32).last() != 0x2f,
{
    lemma_slash_bytes(c as u32);
}

/// A text that does not end with a slash has bytes that do not either.
proof fn lemma_encoded_end(s: Seq<char>)
    requires
        s.len() > 0,
        s.last() != '/',
    ensures
        encode_utf8(s).len() > 0,
        encode_utf8(s).last() != 0x2f,
{
    let one = seq![s.last()];
    lemma_slash_alone(s.last());
    assert(s =~= s.drop_last() + one);
    lemma_encoded_parts(s.drop_last(), one);
    assert(one.drop_first() =~= Seq::<char>::empty());
    assert(encode_utf8(Seq::<char>::empty()) =~= Seq::<u8>::empty());
    assert(encode_utf8(one) =~= vstd::utf8::encode_scalar(one[0] as u32));
    assert(encode_utf8(s).last() == encode_utf8(one).last());
}

/// The text names something in a directory: it neither begins nor ends with a
/// slash.
pub open spec fn names_an_entry(name: Seq<char>) -> bool {
    name.len() > 0 && name[0] != '/' && name.last() != '/'
}

/// A text path is joined as its bytes are.
proof fn lemma_text_path(base: Seq<char>, part: Seq<char>)
    requires
        base.len() > 0 && base.last() != '/',
        part.len() > 0 && part[0] != '/',
    ensures
        crate::paths::path_in(encode_utf8(base), encode_utf8(part)) == encode_utf8(
            base + "/"@ + part,
        ),
{
    reveal_strlit("/");
    let slash = "/"@;
    assert('/' as u8 == 0x2f);
    assert(vstd::utf8::is_ascii_chars(slash));
    vstd::utf8::is_ascii_chars_encode_utf8(slash);
    assert(encode_utf8(slash)[0] == slash[0] as u8);
    assert(encode_utf8(slash) =~= seq!['/' as u8]);
    lemma_slash_alone(part[0]);
    assert(encode_utf8(part)[0] == vstd::utf8::encode_scalar(part[0] as u32)[0]);
    lemma_encoded_end(base);
    law_paths_are_joined_by_one_separator(encode_utf8(base), encode_utf8(part));
    lemma_encoded_parts(base, slash);
    lemma_encoded_parts(base + slash, part);
}

/// The files of a light are where the kernel has them: the entries of an event
/// device in its own directory, those of the devices that are not listed there
/// among all lights.
pub proof fn law_light_files_are_where_the_kernel_has_them(
    event_name: Seq<char>,
    entry: Seq<char>,
    event_number: Seq<char>,
)
    requires
        names_an_entry(event_name),
        names_an_entry(entry),
    ensures
        led_directory(event_name) == encode_utf8(
            "/sys/class/input"@ + "/"@ + event_name + "/"@ + "device/device/leds"@,
        ),
        intensity_file(led_directory(event_name), encode_utf8(entry)) == encode_utf8(
            "/sys/class/input"@ + "/"@ + event_name + "/"@ + "device/device/leds"@ + "/"@ + entry
                + "/"@ + "multi_intensity"@,
        ),
        fallback_file("event"@ + event_number) == Some(
            encode_utf8(
                "/sys/class/leds"@ + "/"@ + ("input"@ + event_number + ":rgb:indicator"@) + "/"@
                    + "multi_intensity"@,
            ),
        ),
        !"event"@.is_prefix_of(event_name) ==> fallback_file(event_name) is None,
{
    reveal_strlit("/sys/class/input");
    reveal_strlit("device/device/leds");
    reveal_strlit("multi_intensity");
    reveal_strlit("/sys/class/leds");
    reveal_strlit("input");
    reveal_strlit(":rgb:indicator");
    reveal_strlit("/");
    let device = "/sys/class/input"@ + "/"@ + event_name;
    let directory = device + "/"@ + "device/device/leds"@;
    lemma_text_path("/sys/class/input"@, event_name);
    assert(device.last() == event_name.last());
    lemma_text_path(device, "device/device/leds"@);
    assert(directory.last() == 's');
    lemma_text_path(directory, entry);
    let light = directory + "/"@ + entry;
    assert(light.last() == entry.last());
    lemma_text_path(light, "multi_intensity"@);
    let other = "input"@ + event_number + ":rgb:indicator"@;
    assert(other[0] == 'i');
    lemma_text_path("/sys/class/leds"@, other);
    let fallback = "/sys/class/leds"@ + "/"@ + other;
    assert(fallback.last() == 'r');
    lemma_text_path(fallback, "multi_intensity"@);
    let named = "event"@ + event_number;
    assert(named.take("event"@.len() as int) =~= "event"@);
    assert("event"@.is_prefix_of(named));
    assert(named.skip("event"@.len() as int) =~= event_number);
}

/// The sockets of a Hyprland instance are in its directory under the session's.
pub proof fn law_instances_have_their_directory(runtime_dir: Seq<char>, instance: Seq<char>)
    requires
        runtime_dir.len() > 0 && runtime_dir.last() != '/',
        instance.len() > 0 && instance[0] != '/',
    ensures
        instance_directory(encode_utf8(runtime_dir), encode_utf8(instance)) == encode_utf8(
            runtime_dir + "/"@ + "hypr"@ + "/"@ + instance,
        ),
{
    reveal_strlit("hypr");
    reveal_strlit("/");
    lemma_text_path(runtime_dir, "hypr"@);
    let hypr = runtime_dir + "/"@ + "hypr"@;
    assert(hypr.last() == 'r');
    lemma_text_path(hypr, instance);
}

/// The light is the first entry that is an indicator; one that the kernel lists
/// under the device comes before the fallback, which counts only where there is
/// such a file.
pub proof fn law_first_indicator_is_the_light(
    event_name: Seq<char>,
    entries: Seq<LedEntry>,
    fallback_exists: bool,
    i: int,
)
    requires
        0 <= i <= entries.len(),
        forall|k: int| 0 <= k < i ==> !is_indicator(#[trigger] entries[k]),
    ensures
        i < entries.len() && is_indicator(entries[i]) ==> first_indicator(entries) == Some(
            entries[i].name@,
        ) && light_file(event_name, entries, fallback_exists) == Some(
            intensity_file(led_directory(event_name), entries[i].name@),
        ),
        i == entries.len() ==> first_indicator(entries) is None && light_file(
            event_name,
            entries,
            fallback_exists,
        ) == (if fallback_exists {
            fallback_file(event_name)
        } else {
            None
        }),
    decreases entries.len(),
{
    if i > 0 {
        let rest = entries.drop_first();
        assert(!is_indicator(entries[0]));
        assert(forall|k: int| 0 <= k < rest.len() ==> rest[k] == entries[k + 1]);
        law_first_indicator_is_the_light(event_name, rest, fallback_exists, i - 1);
    }
}

/// An indicator is an entry with a colour whose name ends with `:rgb:indicator`.
pub proof fn law_indicators_are_known_by_their_names(entry: LedEntry, front: Seq<u8>)
    ensures
        entry.name@ == front + encode_utf8(":rgb:indicator"@) && entry.has_intensity
            ==> is_indicator(entry),
        !entry.has_intensity ==> !is_indicator(entry),
        is_indicator(entry) ==> exists|f: Seq<u8>|
            entry.name@ == #[trigger] (f + encode_utf8(":rgb:indicator"@)),
{
    let suffix = encode_utf8(":rgb:indicator"@);
    if entry.name@ == front + suffix {
        assert(entry.name@.subrange(front.len() as int, entry.name@.len() as int) =~= suffix);
    }
    if is_indicator(entry) {
        let f = entry.name@.take(entry.name@.len() - suffix.len());
        assert(entry.name@ =~= f + suffix);
    }
}

/// A text names a colour exactly if it writes it with six digits, in whatever case,
/// with or without a number sign.
pub proof fn law_colors_are_written_with_six_digits(value: Seq<char>, red: u8, green: u8, blue: u8)
    ensures
        ({
            let written = text::lowered(
                text::hex_pair(red) + text::hex_pair(green) + text::hex_pair(blue),
            );
            named_color(value) == Some((red, green, blue)) <==> text::lowered(value) == written
                || text::lowered(value) == seq!['#'] + written
        }),
{
    let pairs = text::hex_pair(red) + text::hex_pair(green) + text::hex_pair(blue);
    let written = text::lowered(pairs);
    law_lower_case_keeps_the_places(value, pairs);
    law_lower_case_keeps_the_places(pairs, value);
    let hex = hex_part(value);
    law_lower_case_keeps_the_places(hex, pairs);
    if value.len() > 0 && value[0] == '#' {
        assert(value =~= seq!['#'] + hex);
        law_lower_case_keeps_the_places(seq!['#'], hex);
        assert(text::lowered(seq!['#']) =~= seq!['#']);
    }
    if text::lowered(value) == written {
        law_written_color_is_read_back(value, red, green, blue);
    }
    if text::lowered(value) == seq!['#'] + written {
        assert(text::lowered(value)[0] == text::lower(value[0]));
        assert(value[0] == '#');
        assert(text::lowered(hex) =~= written) by {
            assert(text::lowered(value).skip(1) =~= text::lowered(hex));
            assert((seq!['#'] + written).skip(1) =~= written);
        }
        law_written_color_is_read_back(hex, red, green, blue);
        assert(hex[0] != '#') by {
            assert(written[0] == text::lower(text::hex_pair(red)[0]));
            assert(text::lowered(hex)[0] == text::lower(hex[0]));
        }
    }
    if named_color(value) == Some((red, green, blue)) {
        assert forall|i: int| 0 <= i < 6 implies text::hex_value(#[trigger] hex[i]) is Some by {}
        assert(text::hex_value(hex[0]) is Some && text::hex_value(hex[1]) is Some);
        assert(text::hex_value(hex[2]) is Some && text::hex_value(hex[3]) is Some);
        assert(text::hex_value(hex[4]) is Some && text::hex_value(hex[5]) is Some);
        lemma_digits_of(hex[0], hex[1], red);
        lemma_digits_of(hex[2], hex[3], green);
        lemma_digits_of(hex[4], hex[5], blue);
        assert(pairs[0] == text::hex_pair(red)[0] && pairs[1] == text::hex_pair(red)[1]);
        assert(pairs[2] == text::hex_pair(green)[0] && pairs[3] == text::hex_pair(green)[1]);
        assert(pairs[4] == text::hex_pair(blue)[0] && pairs[5] == text::hex_pair(blue)[1]);
        assert(text::lowered(hex) =~= written);
    }
}

proof fn lemma_digits_of(high: char, low: char, byte: u8)
    requires
        text::hex_value(high) is Some,
        text::hex_value(low) is Some,
        crate::light::hex_byte(high, low) == byte,
    ensures
        text::lower(high) == text::lower(text::hex_pair(byte)[0]),
        text::lower(low) == text::lower(text::hex_pair(byte)[1]),
{
    let h = text::hex_value(high)->0;
    let l = text::hex_value(low)->0;
    assert(byte as int == 16 * h + l);
    assert(byte as int / 16 == h && byte as int % 16 == l);
}

/// The numbers of a light, each behind its own white space.
pub open spec fn listed_numbers(fronts: Seq<Seq<char>>, values: Seq<nat>) -> Seq<
    (Seq<char>, Seq<char>),
> {
    Seq::new(values.len(), |i: int| (fronts[i], text::decimal(values[i])))
}

/// A light tells three numbers, whatever white space stands between them, in the
/// order red, green, blue. Another count of numbers is not the expected form, and a
/// number that is no byte is no value, whatever else there is.
pub proof fn law_lights_tell_three_bytes(
    fronts: Seq<Seq<char>>,
    values: Seq<nat>,
    back: Seq<char>,
)
    requires
        fronts.len() == values.len(),
        all_blank(back),
        forall|i: int|
            0 <= i < fronts.len() ==> all_blank(#[trigger] fronts[i]) && (i > 0 ==> fronts[i].len()
                > 0),
    ensures
        ({
            let told = told_color(spaced(listed_numbers(fronts, values)) + back);
            if exists|i: int| 0 <= i < values.len() && #[trigger] values[i] > 255 {
                told == Err::<(u8, u8, u8), LightError>(LightError::InvalidValue)
            } else if values.len() != 3 {
                told == Err::<(u8, u8, u8), LightError>(LightError::UnexpectedFormat)
            } else {
                told == Ok::<(u8, u8, u8), LightError>(
                    (values[0] as u8, values[1] as u8, values[2] as u8),
                )
            }
        }),
{
    let parts = listed_numbers(fronts, values);
    assert forall|i: int| 0 <= i < parts.len() implies {
        &&& all_blank((#[trigger] parts[i]).0)
        &&& is_word(parts[i].1)
        &&& i > 0 ==> parts[i].0.len() > 0
    } by {
        assert(all_blank(fronts[i]));
        lemma_number_is_a_word(values[i]);
    }
    law_words_are_told_apart(parts, back);
    let found = text::words(spaced(parts) + back);
    assert(found.len() == values.len());
    assert forall|i: int| 0 <= i < values.len() implies text::byte_value(#[trigger] found[i]) == (
    if values[i] < 256 {
        Some(values[i] as u8)
    } else {
        None
    }) by {
        assert(found[i] == parts[i].1);
        law_bytes_are_read_from_decimal_numbers(values[i], back, 0);
    }
    if exists|i: int| 0 <= i < values.len() && #[trigger] values[i] > 255 {
        let i = choose|i: int| 0 <= i < values.len() && #[trigger] values[i] > 255;
        assert(text::byte_value(found[i]) is None);
    }
}

proof fn lemma_number_is_a_word(n: nat)
    ensures
        is_word(text::decimal(n)),
{
    text::lemma_decimal(n);
    let s = text::decimal(n);
    assert forall|i: int| 0 <= i < s.len() implies !text::blank(#[trigger] s[i]) by {
        assert(text::digit_value(s[i]) is Some);
    }
}

/// A light is set by its three numbers in a line of their own, one space between
/// each two.
pub proof fn law_lights_are_set_by_one_line(red: u8, green: u8, blue: u8)
    ensures
        intensities(red, green, blue) == text::decimal(red as nat) + seq![' '] + text::decimal(
            green as nat,
        ) + seq![' '] + text::decimal(blue as nat) + seq!['\n'],
{
    reveal_strlit(" ");
    reveal_strlit("\n");
    assert(" "@ =~= seq![' ']);
    assert("\n"@ =~= seq!['\n']);
}

/// The name holds the word, in whatever case.
pub open spec fn mentions(name: Seq<char>, word: Seq<char>) -> bool {
    exists|front: Seq<char>, back: Seq<char>|
        text::lowered(name) == #[trigger] (front + word + back)
}

proof fn lemma_mentions(name: Seq<char>, word: Seq<char>)
    ensures
        mentions(name, word) == text::occurs(text::lowered(name), word),
{
    if mentions(name, word) {
        let (front, back) = choose|front: Seq<char>, back: Seq<char>|
            text::lowered(name) == #[trigger] (front + word + back);
        law_text_is_found_where_it_stands(front, word, back, name);
    }
    law_text_is_found_where_it_stands(name, word, name, text::lowered(name));
}

/// The controller's own sound card comes first, then what is named after the
/// controller, then anything that is called a controller; other devices do not
/// count.
pub proof fn law_microphones_are_ranked_by_their_names(a: Seq<char>, b: Seq<char>)
    ensures
        mentions(a, "hw:card=controller"@) && mentions(a, "dev=0"@) ==> {
            &&& likeness(a) is Some
            &&& !(mentions(b, "hw:card=controller"@) && mentions(b, "dev=0"@)) && likeness(b)
                is Some ==> likeness(a)->0 > likeness(b)->0
        },
        mentions(a, "dualsense"@) || mentions(a, "wireless controller"@) ==> {
            &&& likeness(a) is Some
            &&& !(mentions(b, "hw:card=controller"@) && mentions(b, "dev=0"@)) && !mentions(
                b,
                "dualsense"@,
            ) && !mentions(b, "wireless controller"@) && likeness(b) is Some ==> likeness(a)->0
                > likeness(b)->0
        },
        mentions(a, "controller"@) ==> likeness(a) is Some,
        likeness(a) is Some ==> mentions(a, "controller"@) || mentions(a, "dualsense"@),
{
    lemma_mentions(a, "hw:card=controller"@);
    lemma_mentions(a, "dev=0"@);
    lemma_mentions(a, "dualsense"@);
    lemma_mentions(a, "wireless controller"@);
    lemma_mentions(a, "controller"@);
    lemma_mentions(b, "hw:card=controller"@);
    lemma_mentions(b, "dev=0"@);
    lemma_mentions(b, "dualsense"@);
    lemma_mentions(b, "wireless controller"@);
    lemma_mentions(b, "controller"@);
    reveal_strlit("hw:card=controller");
    reveal_strlit("wireless controller");
    reveal_strlit("controller");
    reveal_strlit("hw:card=");
    reveal_strlit("wireless ");
    assert("hw:card=controller"@ =~= "hw:card="@ + "controller"@);
    assert("wireless controller"@ =~= "wireless "@ + "controller"@);
    if mentions(a, "hw:card=controller"@) {
        lemma_mentions_the_end(a, "hw:card="@, "controller"@);
    }
    if mentions(a, "wireless controller"@) {
        lemma_mentions_the_end(a, "wireless "@, "controller"@);
    }
}

proof fn lemma_mentions_the_end(name: Seq<char>, start: Seq<char>, end: Seq<char>)
    requires
        mentions(name, start + end),
    ensures
        mentions(name, end),
{
    let (front, back) = choose|front: Seq<char>, back: Seq<char>|
        text::lowered(name) == #[trigger] (front + (start + end) + back);
    assert(front + (start + end) + back =~= (front + start) + end + back);
}

/// There is one best device, and of those that look alike it is the last.
pub proof fn law_last_of_the_best_is_chosen(names: Seq<Option<String>>, chosen: int, other: int)
    requires
        is_best(names, chosen),
        0 <= other < names.len(),
        device_likeness(names[other]) is Some,
    ensures
        device_likeness(names[chosen]) is Some,
        device_likeness(names[other])->0 <= device_likeness(names[chosen])->0,
        device_likeness(names[other]) == device_likeness(names[chosen]) ==> other <= chosen,
        is_best(names, other) ==> other == chosen,
{
    if is_best(names, other) {
        assert(device_likeness(names[chosen])->0 <= device_likeness(names[other])->0);
    }
}

/// A microphone that is found, configured, built and started without an error is
/// listened to, under the name of the device that was chosen and in the form that
/// it gives; nothing is said before that.
pub proof fn law_microphones_start_step_by_step(
    names: Vec<Option<String>>,
    index: usize,
    format: crate::microphone::SampleFormat,
    start: MicrophoneView,
    found: MicrophoneView,
    configured: MicrophoneView,
    built: MicrophoneView,
    done: MicrophoneView,
    steps: Seq<MicrophoneStep>,
)
    requires
        start.stage == Stage::Listing,
        is_best(names@, index as int),
        format@ !is Other,
        steps.len() == 4,
        start.leads_to(MicrophoneEvent::Listed(Ok(names)), found, steps[0]),
        found.leads_to(MicrophoneEvent::Configured(Ok(format)), configured, steps[1]),
        configured.leads_to(MicrophoneEvent::Built(Ok(())), built, steps[2]),
        built.leads_to(MicrophoneEvent::Played(Ok(())), done, steps[3]),
    ensures
        steps[0].action == MicrophoneAction::Configure(index),
        found.stage == Stage::Configuring,
        found.name == names@[index as int]->0@,
        steps[1].action matches MicrophoneAction::Build(wanted) && wanted@ == format@,
        configured.stage == Stage::Building,
        steps[2].action == MicrophoneAction::Play,
        built.stage == Stage::Starting,
        steps[3].action == MicrophoneAction::Listen,
        done.stage == Stage::Done,
        steps[0].output is None && steps[1].output is None && steps[2].output is None,
        steps[3].output matches Some(output) && output@ == OutputView::Status(
            "Listening: "@ + names@[index as int]->0@,
        ),
{
    assert(device_likeness(names@[index as int]) is Some);
    if let MicrophoneAction::Configure(other) = steps[0].action {
        law_last_of_the_best_is_chosen(names@, index as int, other as int);
        law_last_of_the_best_is_chosen(names@, other as int, index as int);
    }
}

/// The report of a step, if it is a message to the user.
pub open spec fn said(step: MicrophoneStep) -> Option<Seq<char>> {
    match step.output {
        Some(output) => match output@ {
            OutputView::Status(words) => Some(words),
            _ => None,
        },
        None => None,
    }
}

/// Whatever goes wrong ends the start: the user is told what could not be done,
/// with which device and why. Only samples that nothing can be done with abort it;
/// everything else gives the microphone up.
pub proof fn law_failures_end_the_start(
    before: MicrophoneView,
    after: MicrophoneView,
    step: MicrophoneStep,
    error: String,
)
    ensures
        before.leads_to(MicrophoneEvent::Listed(Err(error)), after, step) ==> after.stage
            == Stage::Done && step.action == MicrophoneAction::GiveUp && said(step) == Some(
            "Microphone unavailable: "@ + error@,
        ),
        before.leads_to(MicrophoneEvent::Configured(Err(error)), after, step) ==> after.stage
            == Stage::Done && step.action == MicrophoneAction::GiveUp && said(step) == Some(
            "Cannot open "@ + before.name + ": "@ + error@,
        ),
        before.leads_to(MicrophoneEvent::Built(Err(error)), after, step) ==> after.stage
            == Stage::Done && step.action == MicrophoneAction::GiveUp && said(step) == Some(
            "Cannot start "@ + before.name + ": "@ + error@,
        ),
        before.leads_to(MicrophoneEvent::Played(Err(error)), after, step) ==> after.stage
            == Stage::Done && step.action == MicrophoneAction::GiveUp && said(step) == Some(
            "Cannot play "@ + before.name + ": "@ + error@,
        ),
        before.leads_to(
            MicrophoneEvent::Configured(Ok(crate::microphone::SampleFormat::Other(error))),
            after,
            step,
        ) ==> after.stage == Stage::Done && step.action == MicrophoneAction::Abort && said(step)
            == Some("Unsupported microphone sample format: "@ + error@),
{
}

/// Without a device that looks like the controller's there is no microphone, and
/// the user is told.
pub proof fn law_missing_microphones_are_told(
    names: Vec<Option<String>>,
    before: MicrophoneView,
    after: MicrophoneView,
    step: MicrophoneStep,
)
    requires
        forall|i: int| 0 <= i < names@.len() ==> device_likeness(#[trigger] names@[i]) is None,
        before.leads_to(MicrophoneEvent::Listed(Ok(names)), after, step),
    ensures
        after.stage == Stage::Done,
        step.action == MicrophoneAction::GiveUp,
        said(step) == Some("DualSense microphone not found (is the headset input exposed?)"@),
{
    if let MicrophoneAction::Configure(index) = step.action {
        assert(device_likeness(names@[index as int]) is None);
    }
}

/// Each stage waits for the outcome of its own action, and a start that is over
/// waits for nothing.
pub proof fn law_stages_wait_for_their_outcome(view: MicrophoneView, event: MicrophoneEvent)
    ensures
        view.expects(event) <==> {
            ||| view.stage == Stage::Listing && event is Listed
            ||| view.stage == Stage::Configuring && event is Configured
            ||| view.stage == Stage::Building && event is Built
            ||| view.stage == Stage::Starting && event is Played
        },
{
}

/// The calibration is kept in a file of its own in the directory of the program.
pub proof fn law_calibration_has_its_file(base: Seq<char>)
    requires
        base.len() > 0 && base.last() != '/',
    ensures
        calibration_file(encode_utf8(base)) == encode_utf8(
            base + "/"@ + "dualsense"@ + "/"@ + "calibration.json"@,
        ),
{
    reveal_strlit("dualsense");
    reveal_strlit("calibration.json");
    reveal_strlit("/");
    lemma_text_path(base, "dualsense"@);
    let directory = base + "/"@ + "dualsense"@;
    assert(directory.last() == 'e');
    lemma_text_path(directory, "calibration.json"@);
}

/// The three ranks of microphones are four, three and one.
pub proof fn law_ranks_of_microphones(name: Seq<char>)
    ensures
        mentions(name, "hw:card=controller"@) && mentions(name, "dev=0"@) <==> likeness(name)
            == Some(4u8),
        likeness(name) == Some(3u8) ==> mentions(name, "dualsense"@) || mentions(
            name,
            "wireless controller"@,
        ),
        likeness(name) == Some(1u8) ==> mentions(name, "controller"@) && !mentions(
            name,
            "dualsense"@,
        ),
        likeness(name) matches Some(rank) ==> rank == 4 || rank == 3 || rank == 1,
{
    lemma_mentions(name, "hw:card=controller"@);
    lemma_mentions(name, "dev=0"@);
    lemma_mentions(name, "dualsense"@);
    lemma_mentions(name, "wireless controller"@);
    lemma_mentions(name, "controller"@);
}

/// Wherever a device looks like the controller's, there is a best one.
pub proof fn law_there_is_a_best_microphone(names: Seq<Option<String>>, some: int)
    requires
        0 <= some < names.len(),
        device_likeness(names[some]) is Some,
    ensures
        exists|best: int| is_best(names, best),
{
    lemma_best_of(names, names.len() as int);
    assert(names.take(names.len() as int) =~= names);
    assert(names.take(names.len() as int)[some] == names[some]);
}

proof fn lemma_best_of(names: Seq<Option<String>>, n: int)
    requires
        0 <= n <= names.len(),
    ensures
        (exists|i: int| 0 <= i < n && device_likeness(#[trigger] names[i]) is Some) ==> exists|
            best: int,
        | is_best(names.take(n), best),
    decreases n,
{
    if n > 0 {
        lemma_best_of(names, n - 1);
        let shorter = names.take(n - 1);
        let longer = names.take(n);
        assert(forall|k: int| 0 <= k < n - 1 ==> shorter[k] == longer[k]);
        assert(longer[n - 1] == names[n - 1]);
        if exists|i: int| 0 <= i < n - 1 && device_likeness(#[trigger] names[i]) is Some {
            let best = choose|best: int| is_best(shorter, best);
            assert(device_likeness(shorter[best]) == device_likeness(longer[best]));
            if device_likeness(names[n - 1]) is Some && device_likeness(names[n - 1])->0
                >= device_likeness(shorter[best])->0 {
                assert(is_best(longer, n - 1)) by {
                    assert forall|i: int| 0 <= i < longer.len() implies match device_likeness(
                        #[trigger] longer[i],
                    ) {
                        Some(other) => other <= device_likeness(longer[n - 1])->0 && (i > n - 1
                            ==> other < device_likeness(longer[n - 1])->0),
                        None => true,
                    } by {
                        if i < n - 1 {
                            assert(shorter[i] == longer[i]);
                        }
                    }
                }
            } else {
                assert(is_best(longer, best)) by {
                    assert forall|i: int| 0 <= i < longer.len() implies match device_likeness(
                        #[trigger] longer[i],
                    ) {
                        Some(other) => other <= device_likeness(longer[best])->0 && (i > best
                            ==> other < device_likeness(longer[best])->0),
                        None => true,
                    } by {
                        if i < n - 1 {
                            assert(shorter[i] == longer[i]);
                        }
                    }
                }
            }
        } else if device_likeness(names[n - 1]) is Some {
            assert(is_best(longer, n - 1)) by {
                assert forall|i: int| 0 <= i < n - 1 implies device_likeness(#[trigger] longer[i])
                    is None by {
                    assert(longer[i] == names[i]);
                }
            }
        }
    }
}

} // verus!
