use vstd::prelude::*;

use crate::validate::{DeviceReport, MissingDevice};

verus! {

/// The decimal digit `d`, for `d < 10`.
pub open spec fn digit_text(d: nat) -> Seq<char> {
    if d == 0 {
        "0"@
    } else if d == 1 {
        "1"@
    } else if d == 2 {
        "2"@
    } else if d == 3 {
        "3"@
    } else if d == 4 {
        "4"@
    } else if d == 5 {
        "5"@
    } else if d == 6 {
        "6"@
    } else if d == 7 {
        "7"@
    } else if d == 8 {
        "8"@
    } else {
        "9"@
    }
}

/// The decimal digits of `n`, without leading zeros.
pub open spec fn decimal(n: nat) -> Seq<char>
    decreases n,
{
    if n < 10 {
        digit_text(n)
    } else {
        decimal(n / 10) + digit_text(n % 10)
    }
}

/// One bulleted line per item.
pub open spec fn bullets(items: Seq<Seq<char>>) -> Seq<char>
    decreases items.len(),
{
    if items.len() == 0 {
        Seq::empty()
    } else {
        bullets(items.drop_last()) + "  • "@ + items.last() + "\n"@
    }
}

/// A missing device as the notice lists it: its name and its hotkey.
pub open spec fn missing_line(m: MissingDevice) -> Seq<char> {
    m.device_name@ + " (hotkey: "@ + m.keys@ + ")"@
}

/// A section with a title, the count of items in parentheses, and one bullet
/// per item.
pub open spec fn section(title: Seq<char>, items: Seq<Seq<char>>) -> Seq<char> {
    title + " ("@ + decimal(items.len()) + "):\n"@ + bullets(items) + "\n"@
}

/// The title of a section of missing devices: singular for one device.
pub open spec fn missing_title(kind: Seq<char>, count: nat) -> Seq<char> {
    "Missing "@ + kind + if count > 1 {
        " Devices"@
    } else {
        " Device"@
    }
}

/// The start-up notice on configured devices that are missing, with the
/// available names of each kind that has a missing device; `None` where
/// nothing is missing.
pub open spec fn notice_text(
    missing_output: Seq<MissingDevice>,
    missing_input: Seq<MissingDevice>,
    available_output: Seq<String>,
    available_input: Seq<String>,
) -> Option<Seq<char>> {
    if missing_output.len() == 0 && missing_input.len() == 0 {
        None
    } else {
        let mo = missing_output.map_values(|m: MissingDevice| missing_line(m));
        let mi = missing_input.map_values(|m: MissingDevice| missing_line(m));
        let ao = available_output.map_values(|s: String| s@);
        let ai = available_input.map_values(|s: String| s@);
        Some(
            "SoundSwitch has started but some configured devices were not found:\n\n"@
                + (if mo.len() > 0 { section(missing_title("Output"@, mo.len()), mo) } else { Seq::empty() })
                + (if mi.len() > 0 { section(missing_title("Input"@, mi.len()), mi) } else { Seq::empty() })
                + "The application will continue to run, but these hotkeys will not work until the devices are available.\n\n"@
                + (if mo.len() > 0 && ao.len() > 0 { section("Available Output Devices"@, ao) } else { Seq::empty() })
                + (if mi.len() > 0 && ai.len() > 0 { section("Available Input Devices"@, ai) } else { Seq::empty() })
                + "Possible solutions:\n"@
                + "• Check that the devices are connected and enabled in Windows Sound settings\n"@
                + "• Verify the device names in your config.toml file match the available devices above\n"@
                + "• Consider enabling fuzzy matching in your configuration"@,
        )
    }
}

/// The views of a sequence of strings.
pub open spec fn views(items: Seq<String>) -> Seq<Seq<char>> {
    items.map_values(|x: String| x@)
}

fn digit(d: usize) -> (r: &'static str)
    requires
        d < 10,
    ensures
        r@ == digit_text(d as nat),
{
    if d == 0 {
        "0"
    } else if d == 1 {
        "1"
    } else if d == 2 {
        "2"
    } else if d == 3 {
        "3"
    } else if d == 4 {
        "4"
    } else if d == 5 {
        "5"
    } else if d == 6 {
        "6"
    } else if d == 7 {
        "7"
    } else if d == 8 {
        "8"
    } else {
        "9"
    }
}

fn append_decimal(s: &mut String, n: usize)
    ensures
        final(s)@ == old(s)@ + decimal(n as nat),
    decreases n,
{
    if n < 10 {
        s.append(digit(n));
    } else {
        append_decimal(s, n / 10);
        s.append(digit(n % 10));
        assert(final(s)@ =~= old(s)@ + decimal(n as nat));
    }
}

fn append_bullets(s: &mut String, items: &Vec<String>)
    ensures
        final(s)@ == old(s)@ + bullets(views(items@)),
{
    let ghost start = s@;
    let mut i: usize = 0;
    while i < items.len()
        invariant
            i <= items@.len(),
            s@ == start + bullets(views(items@.subrange(0, i as int))),
        decreases items@.len() - i,
    {
        let ghost before = views(items@.subrange(0, i as int));
        s.append("  • ");
        s.append(items[i].as_str());
        s.append("\n");
        i = i + 1;
        proof {
            let next = views(items@.subrange(0, i as int));
            assert(next.drop_last() =~= before);
            assert(next.last() == items@[i - 1]@);
            assert(s@ =~= start + bullets(next));
        }
    }
    assert(items@.subrange(0, items@.len() as int) =~= items@);
}

fn append_section(s: &mut String, title: &str, items: &Vec<String>)
    ensures
        final(s)@ == old(s)@ + section(title@, views(items@)),
{
    s.append(title);
    s.append(" (");
    append_decimal(s, items.len());
    s.append("):\n");
    append_bullets(s, items);
    s.append("\n");
    assert(final(s)@ =~= old(s)@ + section(title@, views(items@)));
}

fn missing_lines(missing: &Vec<MissingDevice>) -> (r: Vec<String>)
    ensures
        views(r@) == missing@.map_values(|m: MissingDevice| missing_line(m)),
{
    let mut out: Vec<String> = Vec::new();
    let mut i: usize = 0;
    while i < missing.len()
        invariant
            i <= missing@.len(),
            views(out@) == missing@.subrange(0, i as int).map_values(
                |m: MissingDevice| missing_line(m),
            ),
        decreases missing@.len() - i,
    {
        let m = &missing[i];
        let line = m.device_name.clone().concat(" (hotkey: ").concat(m.keys.as_str()).concat(")");
        assert(line@ == missing_line(*m));
        let ghost prev = views(out@);
        out.push(line);
        assert(views(out@) =~= prev.push(missing_line(missing@[i as int])));
        i = i + 1;
        assert(views(out@) =~= missing@.subrange(0, i as int).map_values(
            |m: MissingDevice| missing_line(m),
        ));
    }
    assert(missing@.subrange(0, missing@.len() as int) =~= missing@);
    out
}

fn missing_title_string(kind: &str, count: usize) -> (r: String)
    ensures
        r@ == missing_title(kind@, count as nat),
{
    let base = String::from_str("Missing ").concat(kind);
    if count > 1 {
        base.concat(" Devices")
    } else {
        base.concat(" Device")
    }
}

/// The start-up notice on the missing devices of `report`, and `None` where
/// nothing is missing.
pub fn missing_devices_notice(report: &DeviceReport) -> (r: Option<String>)
    ensures
        match r {
            Some(t) => notice_text(
                report.missing_output@,
                report.missing_input@,
                report.available_output@,
                report.available_input@,
            ) == Some(t@),
            None => notice_text(
                report.missing_output@,
                report.missing_input@,
                report.available_output@,
                report.available_input@,
            ) is None,
        },
{
    let no_output = report.missing_output.len() == 0;
    let no_input = report.missing_input.len() == 0;
    if no_output && no_input {
        return None;
    }
    let mut s = String::from_str("SoundSwitch has started but some configured devices were not found:\n\n");
    let ghost header = s@;
    if !no_output {
        let lines = missing_lines(&report.missing_output);
        let title = missing_title_string("Output", lines.len());
        append_section(&mut s, title.as_str(), &lines);
    }
    let ghost after_mo = s@;
    if !no_input {
        let lines = missing_lines(&report.missing_input);
        let title = missing_title_string("Input", lines.len());
        append_section(&mut s, title.as_str(), &lines);
    }
    let ghost after_mi = s@;
    s.append("The application will continue to run, but these hotkeys will not work until the devices are available.\n\n");
    let ghost after_mid = s@;
    if !no_output && report.available_output.len() > 0 {
        append_section(&mut s, "Available Output Devices", &report.available_output);
    }
    let ghost after_ao = s@;
    if !no_input && report.available_input.len() > 0 {
        append_section(&mut s, "Available Input Devices", &report.available_input);
    }
    let ghost after_ai = s@;
    s.append("Possible solutions:\n");
    s.append("• Check that the devices are connected and enabled in Windows Sound settings\n");
    s.append("• Verify the device names in your config.toml file match the available devices above\n");
    s.append("• Consider enabling fuzzy matching in your configuration");
    proof {
        let mo = report.missing_output@.map_values(|m: MissingDevice| missing_line(m));
        let mi = report.missing_input@.map_values(|m: MissingDevice| missing_line(m));
        assert(report.available_output@.map_values(|x: String| x@) == views(report.available_output@));
        assert(report.available_input@.map_values(|x: String| x@) == views(report.available_input@));
        assert(after_mo == header + (if mo.len() > 0 { section(missing_title("Output"@, mo.len()), mo) } else { Seq::empty() })) by {
            if no_output {
                assert(after_mo =~= header + Seq::<char>::empty());
            }
        }
        assert(after_mi == after_mo + (if mi.len() > 0 { section(missing_title("Input"@, mi.len()), mi) } else { Seq::empty() })) by {
            if no_input {
                assert(after_mi =~= after_mo + Seq::<char>::empty());
            }
        }
        assert(after_ao == after_mid + (if mo.len() > 0 && report.available_output@.len() > 0 { section("Available Output Devices"@, views(report.available_output@)) } else { Seq::empty() })) by {
            if !(mo.len() > 0 && report.available_output@.len() > 0) {
                assert(after_ao =~= after_mid + Seq::<char>::empty());
            }
        }
        assert(after_ai == after_ao + (if mi.len() > 0 && report.available_input@.len() > 0 { section("Available Input Devices"@, views(report.available_input@)) } else { Seq::empty() })) by {
            if !(mi.len() > 0 && report.available_input@.len() > 0) {
                assert(after_ai =~= after_ao + Seq::<char>::empty());
            }
        }
        assert(s@ =~= notice_text(
            report.missing_output@,
            report.missing_input@,
            report.available_output@,
            report.available_input@,
        )->Some_0);
    }
    Some(s)
}

} // verus!
