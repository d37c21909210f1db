//! What texts say: numbers, addresses, names, and what an operator may type.

use vstd::prelude::*;

use crate::cli::CommandView;
use crate::errors::{ErrorView, LinuxErrorView};
use crate::interface::{
    BandKind, BusKind, ChannelWidth, Frequency, InterfaceMode, InterfaceView,
};

verus! {

/// The value of a digit.
pub open spec fn digit_value(c: char) -> int {
    if '0' <= c <= '9' {
        c as int - '0' as int
    } else {
        c as int - 'a' as int + 10
    }
}

/// The number that a decimal numeral stands for.
pub open spec fn numeral_value(s: Seq<char>) -> int
    decreases s.len(),
{
    if s.len() == 0 {
        0
    } else {
        numeral_value(s.drop_last()) * 10 + digit_value(s.last())
    }
}

/// A number is written as a numeral that stands for it, of decimal digits and without a
/// leading zero; so no two numbers are written alike.
pub proof fn a_number_is_written_as_itself(n: nat)
    ensures
        numeral_value(crate::text::decimal(n)) == n,
        crate::text::decimal(n).len() > 0,
        forall|k: int|
            0 <= k < crate::text::decimal(n).len() ==> '0' <= #[trigger] crate::text::decimal(n)[k]
                <= '9',
        n > 0 ==> crate::text::decimal(n)[0] != '0',
    decreases n,
{
    let s = crate::text::decimal(n);
    assert(s.len() > 0);
    if n < 10 {
        assert(s.drop_last() =~= Seq::empty());
        assert(numeral_value(s.drop_last()) == 0);
    } else {
        a_number_is_written_as_itself(n / 10);
        assert(s.drop_last() =~= crate::text::decimal(n / 10));
        assert(s.last() == crate::text::digit(n % 10));
        assert(digit_value(s.last()) == n % 10);
        assert forall|k: int| 0 <= k < s.len() implies '0' <= #[trigger] s[k] <= '9' by {
            if k < s.len() - 1 {
                assert(s[k] == crate::text::decimal(n / 10)[k]);
            }
        }
        assert(s[0] == crate::text::decimal(n / 10)[0]);
    }
}

/// A signed number is written with a minus exactly where it is negative, before what its
/// magnitude is written as.
pub proof fn a_sign_stands_before_the_magnitude(n: int)
    ensures
        n >= 0 ==> crate::cli::signed(n) == crate::text::decimal(n as nat),
        n < 0 ==> {
            &&& crate::cli::signed(n).len() > 1
            &&& crate::cli::signed(n)[0] == '-'
            &&& crate::cli::signed(n).skip(1) == crate::text::decimal((-n) as nat)
        },
{
    reveal_strlit("-");
    if n < 0 {
        a_number_is_written_as_itself((-n) as nat);
        assert(crate::cli::signed(n).skip(1) =~= crate::text::decimal((-n) as nat));
    }
}

/// An address is written as its six bytes in order, each as two hexadecimal digits, with
/// a colon between two.
pub proof fn an_address_is_written_byte_by_byte(mac: Seq<u8>)
    requires
        mac.len() == 6,
    ensures
        crate::mac::mac_text(mac).len() == 17,
        forall|i: int|
            0 <= i < 6 ==> digit_value(#[trigger] crate::mac::mac_text(mac)[3 * i]) * 16
                + digit_value(crate::mac::mac_text(mac)[3 * i + 1]) == mac[i],
        forall|i: int| 0 <= i < 5 ==> #[trigger] crate::mac::mac_text(mac)[3 * i + 2] == ':',
{
    reveal_strlit(":");
    let s = crate::mac::mac_text(mac);
    a_byte_is_two_digits(mac[0]);
    a_byte_is_two_digits(mac[1]);
    a_byte_is_two_digits(mac[2]);
    a_byte_is_two_digits(mac[3]);
    a_byte_is_two_digits(mac[4]);
    a_byte_is_two_digits(mac[5]);
    assert(s.len() == 17);
    assert forall|i: int| 0 <= i < 6 implies digit_value(#[trigger] s[3 * i]) * 16 + digit_value(
        s[3 * i + 1],
    ) == mac[i] by {
        let pair = crate::text::hex_pair(mac[i]);
        a_byte_is_two_digits(mac[i]);
        if i == 0 {
            assert(s[0] == pair[0] && s[1] == pair[1]);
        } else if i == 1 {
            assert(s[3] == pair[0] && s[4] == pair[1]);
        } else if i == 2 {
            assert(s[6] == pair[0] && s[7] == pair[1]);
        } else if i == 3 {
            assert(s[9] == pair[0] && s[10] == pair[1]);
        } else if i == 4 {
            assert(s[12] == pair[0] && s[13] == pair[1]);
        } else {
            assert(s[15] == pair[0] && s[16] == pair[1]);
        }
    }
    assert forall|i: int| 0 <= i < 5 implies #[trigger] s[3 * i + 2] == ':' by {
        if i == 0 {
            assert(s[2] == ':');
        } else if i == 1 {
            assert(s[5] == ':');
        } else if i == 2 {
            assert(s[8] == ':');
        } else if i == 3 {
            assert(s[11] == ':');
        } else {
            assert(s[14] == ':');
        }
    }
}

proof fn a_byte_is_two_digits(b: u8)
    ensures
        crate::text::hex_pair(b).len() == 2,
        digit_value(crate::text::hex_pair(b)[0]) * 16 + digit_value(crate::text::hex_pair(b)[1])
            == b,
{
    a_digit_has_its_value(b as nat / 16);
    a_digit_has_its_value(b as nat % 16);
}

proof fn a_digit_has_its_value(d: nat)
    requires
        d < 16,
    ensures
        digit_value(crate::text::digit(d)) == d,
{
    if d >= 10 {
        let c = ('a' as nat + d - 10) as char;
        assert(c as int == 'a' as int + d - 10);
    } else {
        let c = ('0' as nat + d) as char;
        assert(c as int == '0' as int + d);
    }
}

/// Whether a character may not stand in a name: a slash, a colon, or white space.
pub open spec fn barred_from_names(c: char) -> bool {
    ||| c == '/' || c == ':'
    ||| '\u{9}' <= c <= '\u{d}' || c == ' '
    ||| c == '\u{85}' || c == '\u{a0}' || c == '\u{1680}' || '\u{2000}' <= c <= '\u{200a}'
    ||| c == '\u{2028}' || c == '\u{2029}' || c == '\u{202f}' || c == '\u{205f}'
    ||| c == '\u{3000}'
}

/// A name is acceptable exactly when it has at least one byte and at most 15, is neither
/// of the two that stand for directories, and holds no slash, colon or white space. What
/// is wrong first is what is said.
pub proof fn a_name_is_what_the_kernel_takes(name: Seq<char>)
    ensures
        ({
            let bytes = vstd::utf8::encode_utf8(name).len();
            let fault = crate::names::name_fault(name);
            let directory = name == seq!['.'] || name == seq!['.', '.'];
            let barred = exists|i: int|
                0 <= i < name.len() && barred_from_names(#[trigger] name[i]);
            &&& fault is None <==> name.len() > 0 && bytes <= 15 && !directory && !barred
            &&& name.len() == 0 ==> fault == Some("must not be empty"@)
            &&& name.len() > 0 && bytes > 15 ==> fault == Some("must be at most 15 characters"@)
            &&& bytes <= 15 && directory ==> fault == Some("must not be '.' or '..'"@)
            &&& name.len() > 0 && bytes <= 15 && !directory && barred ==> fault == Some(
                "must not contain whitespace, '/', or ':'"@,
            )
            &&& crate::names::name_verdict(name) == match fault {
                None => Ok::<(), ErrorView>(()),
                Some(reason) => Err(ErrorView::InvalidInterfaceName { name, reason }),
            }
        }),
{
    reveal_strlit(".");
    reveal_strlit("..");
    assert("."@ =~= seq!['.']);
    assert(".."@ =~= seq!['.', '.']);
    assert forall|i: int| 0 <= i < name.len() implies barred_from_names(#[trigger] name[i])
        == crate::names::forbidden_in_name(name[i]) by {}
}

/// Texts are joined in order, with the separator between two and nowhere else.
pub proof fn texts_are_joined_in_order(parts: Seq<Seq<char>>, last: Seq<char>, sep: Seq<char>)
    ensures
        crate::text::joined(Seq::empty(), sep).len() == 0,
        crate::text::joined(seq![last], sep) == last,
        parts.len() > 0 ==> crate::text::joined(parts.push(last), sep) == crate::text::joined(
            parts,
            sep,
        ) + sep + last,
{
    assert(parts.push(last).drop_last() =~= parts);
}

/// A text is padded with blanks behind it, to the width and no further.
pub proof fn a_text_is_padded_behind(s: Seq<char>, width: nat)
    ensures
        crate::text::padded(s, width).len() == if s.len() < width {
            width
        } else {
            s.len()
        },
        crate::text::padded(s, width).take(s.len() as int) == s,
        forall|k: int|
            s.len() <= k < crate::text::padded(s, width).len() ==> #[trigger] crate::text::padded(
                s,
                width,
            )[k] == ' ',
{
    assert(crate::text::padded(s, width).take(s.len() as int) =~= s);
}

/// The words of the command line are all different.
proof fn words_differ()
    ensures
        "start_monitor"@ != "start_monitor_as"@,
        "start_monitor"@ != "stop_monitor"@,
        "start_monitor"@ != "stop"@,
        "start_monitor"@ != "reset"@,
        "start_monitor"@ != "list"@,
        "start_monitor"@ != "ls"@,
        "start"@ != "start_monitor_as"@,
        "start"@ != "stop_monitor"@,
        "start"@ != "stop"@,
        "start"@ != "reset"@,
        "start"@ != "list"@,
        "start"@ != "ls"@,
        "start_monitor_as"@ != "stop_monitor"@,
        "start_monitor_as"@ != "stop"@,
        "start_monitor_as"@ != "reset"@,
        "start_monitor_as"@ != "list"@,
        "start_monitor_as"@ != "ls"@,
        "stop_monitor"@ != "reset"@,
        "stop_monitor"@ != "list"@,
        "stop_monitor"@ != "ls"@,
        "stop"@ != "reset"@,
        "stop"@ != "list"@,
        "stop"@ != "ls"@,
        "reset"@ != "list"@,
        "reset"@ != "ls"@,
        "-h"@ != "start_monitor"@ && "-h"@ != "start"@ && "-h"@ != "start_monitor_as"@,
        "-h"@ != "stop_monitor"@ && "-h"@ != "stop"@ && "-h"@ != "reset"@,
        "-h"@ != "list"@ && "-h"@ != "ls"@,
        "--help"@ != "start_monitor"@ && "--help"@ != "start"@,
        "--help"@ != "start_monitor_as"@ && "--help"@ != "stop_monitor"@,
        "--help"@ != "stop"@ && "--help"@ != "reset"@,
        "--help"@ != "list"@ && "--help"@ != "ls"@,
        "help"@ != "start_monitor"@ && "help"@ != "start"@ && "help"@ != "start_monitor_as"@,
        "help"@ != "stop_monitor"@ && "help"@ != "stop"@ && "help"@ != "reset"@,
        "help"@ != "list"@ && "help"@ != "ls"@,
{
    reveal_strlit("start_monitor");
    reveal_strlit("start");
    reveal_strlit("start_monitor_as");
    reveal_strlit("stop_monitor");
    reveal_strlit("stop");
    reveal_strlit("reset");
    reveal_strlit("list");
    reveal_strlit("ls");
    reveal_strlit("-h");
    reveal_strlit("--help");
    reveal_strlit("help");
    assert("start_monitor"@.len() == 13);
    assert("start"@.len() == 5);
    assert("start_monitor_as"@.len() == 16);
    assert("start_monitor"@[2] == 'a');
    assert("stop_monitor"@[2] == 'o');
    assert("start"@[2] == 'a');
    assert("stop"@[2] == 'o');
    assert("start_monitor_as"@[2] == 'a');
    assert("reset"@[0] == 'r');
    assert("list"@[0] == 'l');
    assert("ls"@[0] == 'l');
    assert("start"@[0] == 's');
    assert("stop"@[0] == 's');
    assert("start_monitor"@[0] == 's');
    assert("stop_monitor"@[0] == 's');
    assert("start_monitor_as"@[0] == 's');
    assert("-h"@[0] == '-');
    assert("--help"@[0] == '-');
    assert("help"@[0] == 'h');
}

/// Whether the first argument is a word or its short form.
pub open spec fn begins_with(args: Seq<Seq<char>>, word: Seq<char>, short: Seq<char>) -> bool {
    args.len() > 0 && (args[0] == word || args[0] == short)
}

/// What was typed is what is done: each command comes of its own words alone, with the
/// interfaces that were named, and everything else is no command.
pub proof fn a_command_is_what_was_typed(args: Seq<Seq<char>>)
    ensures
        ({
            let r = crate::cli::parsed(args);
            let start = begins_with(args, "start_monitor"@, "start"@);
            let stop = begins_with(args, "stop_monitor"@, "stop"@);
            &&& r == Ok::<CommandView, Seq<char>>(CommandView::Start) <==> start && args.len() == 1
            &&& r matches Ok(CommandView::StartOn { .. }) ==> start && args.len() == 2
            &&& start && args.len() == 2 ==> r == Ok::<CommandView, Seq<char>>(
                CommandView::StartOn { iface: args[1] },
            )
            &&& r matches Ok(CommandView::StartAs { .. }) ==> args.len() == 3 && args[0]
                == "start_monitor_as"@
            &&& args.len() == 3 && args[0] == "start_monitor_as"@ ==> r == Ok::<
                CommandView,
                Seq<char>,
            >(CommandView::StartAs { iface: args[1], new_name: args[2] })
            &&& r == Ok::<CommandView, Seq<char>>(CommandView::StopAll) <==> stop && args.len() == 2
                && (args[1] == "all"@ || args[1] == "*"@)
            &&& r matches Ok(CommandView::Stop { .. }) ==> stop && args.len() == 2 && args[1]
                != "all"@ && args[1] != "*"@
            &&& stop && args.len() == 2 && args[1] != "all"@ && args[1] != "*"@ ==> r == Ok::<
                CommandView,
                Seq<char>,
            >(CommandView::Stop { iface: args[1] })
            &&& r == Ok::<CommandView, Seq<char>>(CommandView::Reset) <==> args.len() == 1
                && args[0] == "reset"@
            &&& r == Ok::<CommandView, Seq<char>>(CommandView::List) <==> args.len() == 1 && (
            args[0] == "list"@ || args[0] == "ls"@)
            &&& r == Ok::<CommandView, Seq<char>>(CommandView::Help) <==> args.len() > 0 && (args[0]
                == "-h"@ || args[0] == "--help"@ || args[0] == "help"@)
        }),
{
    words_differ();
}

/// What was typed wrong is said by what it begins with: a command with arguments that it
/// does not take is answered with how it is used, and a word that is no command is named.
pub proof fn a_mistake_is_told_by_its_command(args: Seq<Seq<char>>, message: Seq<char>)
    requires
        crate::cli::parsed(args) == Err::<CommandView, Seq<char>>(message),
    ensures
        args.len() == 0 ==> message == "no command given"@,
        begins_with(args, "start_monitor"@, "start"@) ==> args.len() > 2 && message
            == "start_monitor takes at most one interface"@,
        begins_with(args, "start_monitor_as"@, "start_monitor_as"@) ==> args.len() != 3 && message
            == "usage: rfmon start_monitor_as <iface> <new_name>"@,
        begins_with(args, "stop_monitor"@, "stop"@) ==> args.len() != 2 && message
            == "usage: rfmon stop_monitor <iface|all>"@,
        begins_with(args, "reset"@, "reset"@) ==> args.len() > 1 && message
            == "reset takes no arguments"@,
        begins_with(args, "list"@, "ls"@) ==> args.len() > 1 && message
            == "list takes no arguments"@,
        args.len() > 0 && !begins_with(args, "start_monitor"@, "start"@) && !begins_with(
            args,
            "start_monitor_as"@,
            "stop_monitor"@,
        ) && !begins_with(args, "stop"@, "reset"@) && !begins_with(args, "list"@, "ls"@)
            ==> message == "unknown command '"@ + args[0] + "'"@,
{
    words_differ();
}

/// A mode, a band, a width and a bus are each shown by their usual names, and by their
/// numbers where they have no name.
pub proof fn what_is_shown_has_its_usual_name(
    mode: InterfaceMode,
    band: BandKind,
    width: ChannelWidth,
    bus: BusKind,
)
    ensures
        mode.text() == match mode {
            InterfaceMode::Managed => "managed"@,
            InterfaceMode::Monitor => "monitor"@,
            InterfaceMode::Ap => "AP"@,
            InterfaceMode::Adhoc => "adhoc"@,
            InterfaceMode::MeshPoint => "mesh"@,
            InterfaceMode::Other(v) => "iftype("@ + crate::text::decimal(v as nat) + ")"@,
        },
        band.text() == match band {
            BandKind::TwoGhz => "2.4 GHz"@,
            BandKind::FiveGhz => "5 GHz"@,
            BandKind::SixGhz => "6 GHz"@,
            BandKind::SixtyGhz => "60 GHz"@,
            BandKind::Other(v) => "band("@ + crate::text::decimal(v as nat) + ")"@,
        },
        width.text() == match width {
            ChannelWidth::Mhz20 => "20 MHz"@,
            ChannelWidth::Mhz40Above => "40 MHz (HT40+)"@,
            ChannelWidth::Mhz40Below => "40 MHz (HT40-)"@,
        },
        bus.text() == match bus {
            BusKind::Usb => "usb"@,
            BusKind::Pci => "pci"@,
            BusKind::Other => "other"@,
        },
{
}

/// What a mode or a band is shown as tells which one it is.
pub proof fn no_two_are_shown_alike(a: InterfaceMode, b: InterfaceMode, c: BandKind, d: BandKind)
    ensures
        a.text() == b.text() ==> a == b,
        c.text() == d.text() ==> c == d,
{
    reveal_strlit("managed");
    reveal_strlit("monitor");
    reveal_strlit("AP");
    reveal_strlit("adhoc");
    reveal_strlit("mesh");
    reveal_strlit("iftype(");
    reveal_strlit("2.4 GHz");
    reveal_strlit("5 GHz");
    reveal_strlit("6 GHz");
    reveal_strlit("60 GHz");
    reveal_strlit("band(");
    reveal_strlit(")");
    assert("managed"@[1] == 'a' && "monitor"@[1] == 'o' && "mesh"@[1] == 'e');
    assert("managed"@[0] == 'm' && "monitor"@[0] == 'm' && "mesh"@[0] == 'm');
    assert("AP"@[0] == 'A' && "adhoc"@[0] == 'a');
    assert("2.4 GHz"@[0] == '2' && "5 GHz"@[0] == '5');
    assert("6 GHz"@.len() == 5 && "60 GHz"@.len() == 6);
    assert("6 GHz"@[0] == '6' && "60 GHz"@[0] == '6');
    if let InterfaceMode::Other(v) = a {
        a_number_is_written_as_itself(v as nat);
        assert(a.text()[0] == 'i');
        if let InterfaceMode::Other(w) = b {
            a_number_is_written_as_itself(w as nat);
            enclosed_alike("iftype("@, crate::text::decimal(v as nat), crate::text::decimal(
                w as nat,
            ));
        }
    }
    if let InterfaceMode::Other(w) = b {
        assert(b.text()[0] == 'i');
    }
    if let BandKind::Other(v) = c {
        a_number_is_written_as_itself(v as nat);
        assert(c.text()[0] == 'b');
        if let BandKind::Other(w) = d {
            a_number_is_written_as_itself(w as nat);
            enclosed_alike("band("@, crate::text::decimal(v as nat), crate::text::decimal(
                w as nat,
            ));
        }
    }
    if let BandKind::Other(w) = d {
        assert(d.text()[0] == 'b');
    }
}

/// Two texts in the same enclosure are alike only if they are the same.
proof fn enclosed_alike(before: Seq<char>, s: Seq<char>, t: Seq<char>)
    ensures
        before + s + ")"@ == before + t + ")"@ ==> s == t,
{
    let x = before + s + ")"@;
    let y = before + t + ")"@;
    if x == y {
        assert(x.len() == y.len());
        assert(s =~= x.subrange(before.len() as int, (before.len() + s.len()) as int));
        assert(t =~= y.subrange(before.len() as int, (before.len() + t.len()) as int));
    }
}

/// Whether a text stands in another at `i`.
pub open spec fn stands(part: Seq<char>, whole: Seq<char>, i: int) -> bool {
    0 <= i <= whole.len() - part.len() && whole.subrange(i, i + part.len()) == part
}

/// Whether a text stands in another.
pub open spec fn part_of(part: Seq<char>, whole: Seq<char>) -> bool {
    exists|i: int| #[trigger] stands(part, whole, i)
}

proof fn part_between(before: Seq<char>, part: Seq<char>, after: Seq<char>, whole: Seq<char>)
    requires
        whole =~= before + part + after,
    ensures
        part_of(part, whole),
{
    let i = before.len() as int;
    assert(whole.subrange(i, i + part.len()) =~= part);
    assert(stands(part, whole, i));
}

/// A band is listed with the frequencies that may be used and no others, each under its
/// channel number where it has one.
pub proof fn what_is_listed_may_be_used(frequencies: Seq<Frequency>, text: Seq<char>)
    ensures
        crate::cli::usable_texts(frequencies).contains(text) <==> exists|k: int|
            0 <= k < frequencies.len() && !(#[trigger] frequencies[k]).disabled && text
                == match frequencies[k].channel {
                Some(channel) => crate::text::decimal(channel as nat),
                None => crate::text::decimal(frequencies[k].mhz as nat) + "MHz"@,
            },
        crate::cli::usable_texts(frequencies).len() == frequencies.filter(
            |f: Frequency| !f.disabled,
        ).len(),
    decreases frequencies.len(),
{
    reveal(Seq::filter);
    let pick = |f: Frequency|
        if f.disabled {
            None
        } else {
            Some(crate::cli::frequency_text(f))
        };
    let all = crate::cli::usable_texts(frequencies);
    assert(all == frequencies.filter_map(pick));
    if frequencies.len() > 0 {
        let front = frequencies.drop_last();
        let last = frequencies.last();
        let end = frequencies.len() - 1;
        what_is_listed_may_be_used(front, text);
        let before = crate::cli::usable_texts(front);
        assert(before == front.filter_map(pick));
        let shown = crate::cli::frequency_text(last);
        if last.disabled {
            assert(all == before);
        } else {
            assert(all == before + seq![shown]);
            crate::dump_laws::joined_contain(before, seq![shown], text);
            assert(seq![shown][0] == shown);
            assert(seq![shown].contains(text) <==> text == shown);
        }
        if before.contains(text) {
            let k = choose|k: int|
                0 <= k < front.len() && !(#[trigger] front[k]).disabled && text
                    == match front[k].channel {
                    Some(channel) => crate::text::decimal(channel as nat),
                    None => crate::text::decimal(front[k].mhz as nat) + "MHz"@,
                };
            assert(frequencies[k] == front[k]);
        }
        assert(frequencies[end] == last);
        if exists|k: int|
            0 <= k < frequencies.len() && !(#[trigger] frequencies[k]).disabled && text
                == match frequencies[k].channel {
                Some(channel) => crate::text::decimal(channel as nat),
                None => crate::text::decimal(frequencies[k].mhz as nat) + "MHz"@,
            } {
            let k = choose|k: int|
                0 <= k < frequencies.len() && !(#[trigger] frequencies[k]).disabled && text
                    == match frequencies[k].channel {
                    Some(channel) => crate::text::decimal(channel as nat),
                    None => crate::text::decimal(frequencies[k].mhz as nat) + "MHz"@,
                };
            if k < end {
                assert(front[k] == frequencies[k]);
            }
        }
    }
}

/// The message of a failure names what it is about: the interface, the channel, what was
/// found instead, and how to go on.
#[verifier::rlimit(40)]
pub proof fn a_message_says_what_it_is_about(e: ErrorView)
    ensures
        match e {
            ErrorView::NoMonitorCapable { checked } => {
                &&& part_of(crate::text::decimal(checked as nat), e.text())
            },
            ErrorView::AlreadyMonitor { iface } => {
                &&& part_of(iface, e.text())
            },
            ErrorView::NotFound { name, available } => {
                &&& part_of(name, e.text())
                &&& part_of(available, e.text())
            },
            ErrorView::ChannelUnavailable { channel, iface } => {
                &&& part_of(crate::text::decimal(channel as nat), e.text())
                &&& part_of(iface, e.text())
            },
            ErrorView::ChannelDisabled { channel, iface } => {
                &&& part_of(crate::text::decimal(channel as nat), e.text())
                &&& part_of(iface, e.text())
            },
            ErrorView::WrongBand { channel, iface, alternative } => {
                &&& part_of(crate::text::decimal(channel as nat), e.text())
                &&& part_of(iface, e.text())
                &&& part_of(alternative, e.text())
            },
            ErrorView::AmbiguousChannel { channel, iface } => {
                &&& part_of(crate::text::decimal(channel as nat), e.text())
                &&& part_of(iface, e.text())
            },
            ErrorView::InvalidInterfaceName { name, reason } => {
                &&& part_of(name, e.text())
                &&& part_of(reason, e.text())
            },
            _ => true,
        },
{
    let whole = e.text();
    match e {
        ErrorView::NoMonitorCapable { checked } => {
            part_between("no monitor-capable wireless interface found (checked "@, crate::text::decimal(checked as nat), " interface(s))"@, whole);
        },
        ErrorView::AlreadyMonitor { iface } => {
            part_between("interface '"@, iface, "' is already in monitor mode and may be in use by another tool; release it with stop_monitor(\""@ + iface + "\") first if that state is stale"@, whole);
        },
        ErrorView::NotFound { name, available } => {
            part_between("wireless interface '"@, name, "' not found (available: ["@ + available + "])"@, whole);
            part_between("wireless interface '"@ + name + "' not found (available: ["@, available, "])"@, whole);
        },
        ErrorView::ChannelUnavailable { channel, iface } => {
            part_between("channel "@, crate::text::decimal(channel as nat), " is not available on interface '"@ + iface + "'"@, whole);
            part_between("channel "@ + crate::text::decimal(channel as nat) + " is not available on interface '"@, iface, "'"@, whole);
        },
        ErrorView::ChannelDisabled { channel, iface } => {
            part_between("channel "@, crate::text::decimal(channel as nat), " exists on interface '"@ + iface + "' but is disabled by the current regulatory domain (check it with `iw reg get`)"@, whole);
            part_between("channel "@ + crate::text::decimal(channel as nat) + " exists on interface '"@, iface, "' but is disabled by the current regulatory domain (check it with `iw reg get`)"@, whole);
        },
        ErrorView::WrongBand { channel, iface, alternative } => {
            part_between("channel "@, crate::text::decimal(channel as nat), " on '"@ + iface + "' is in another band; use "@ + alternative + "() to tune it"@, whole);
            part_between("channel "@ + crate::text::decimal(channel as nat) + " on '"@, iface, "' is in another band; use "@ + alternative + "() to tune it"@, whole);
            part_between("channel "@ + crate::text::decimal(channel as nat) + " on '"@ + iface + "' is in another band; use "@, alternative, "() to tune it"@, whole);
        },
        ErrorView::AmbiguousChannel { channel, iface } => {
            part_between("channel "@, crate::text::decimal(channel as nat), " is ambiguous on '"@ + iface + "': it matches more than one frequency"@, whole);
            part_between("channel "@ + crate::text::decimal(channel as nat) + " is ambiguous on '"@, iface, "': it matches more than one frequency"@, whole);
        },
        ErrorView::InvalidInterfaceName { name, reason } => {
            part_between("invalid interface name '"@, name, "': "@ + reason, whole);
            part_between("invalid interface name '"@ + name + "': "@, reason, Seq::<char>::empty(), whole);
        },
        _ => {},
    }
}

/// The message of a failure in the Linux control path names what it is about: the
/// interface, what was attempted, what was read back, and the underlying error.
#[verifier::rlimit(60)]
pub proof fn a_linux_message_says_what_it_is_about(e: LinuxErrorView)
    ensures
        match e {
            LinuxErrorView::NetlinkConnect { kind, phase, source } => {
                &&& part_of(kind, e.text())
                &&& part_of(phase, e.text())
                &&& part_of(source, e.text())
            },
            LinuxErrorView::Dump { command, source } => {
                &&& part_of(command, e.text())
                &&& part_of(source, e.text())
            },
            LinuxErrorView::Timeout { command, timeout_ms } => {
                &&& part_of(command, e.text())
                &&& part_of(crate::text::decimal(timeout_ms as nat), e.text())
            },
            LinuxErrorView::OperationTimeout { op, timeout_ms } => {
                &&& part_of(op, e.text())
                &&& part_of(crate::text::decimal(timeout_ms as nat), e.text())
            },
            LinuxErrorView::LinkSet { op, iface, source } => {
                &&& part_of(iface, e.text())
                &&& part_of(op, e.text())
                &&& part_of(source, e.text())
            },
            LinuxErrorView::SetMode { iface, source } => {
                &&& part_of(iface, e.text())
                &&& part_of(source, e.text())
            },
            LinuxErrorView::SetChannel { iface, source } => {
                &&& part_of(iface, e.text())
                &&& part_of(source, e.text())
            },
            LinuxErrorView::ChannelVerifyFailed { iface, requested_mhz, actual } => {
                &&& part_of(iface, e.text())
                &&& part_of(crate::text::decimal(requested_mhz as nat), e.text())
                &&& part_of(actual.text(), e.text())
            },
            LinuxErrorView::WidthVerifyFailed { iface, primary_mhz, requested, actual } => {
                &&& part_of(iface, e.text())
                &&& part_of(crate::text::decimal(primary_mhz as nat), e.text())
                &&& part_of(actual.text(), e.text())
                &&& part_of(requested.text(), e.text())
            },
            LinuxErrorView::MonitorVerifyFailed { iface } => {
                &&& part_of(iface, e.text())
            },
            LinuxErrorView::ManagedVerifyFailed { iface, actual } => {
                &&& part_of(iface, e.text())
                &&& part_of(actual.text(), e.text())
            },
            LinuxErrorView::Rename { old, new, source } => {
                &&& part_of(old, e.text())
                &&& part_of(new, e.text())
                &&& part_of(source, e.text())
            },
            LinuxErrorView::DbusConnect { source } => {
                &&& part_of(source, e.text())
            },
            LinuxErrorView::NetworkManager { op, iface, source } => {
                &&& part_of(op, e.text())
                &&& part_of(iface, e.text())
                &&& part_of(source, e.text())
            },
            LinuxErrorView::Supplicant { op, iface, source } => {
                &&& part_of(op, e.text())
                &&& part_of(iface, e.text())
                &&& part_of(source, e.text())
            },
        },
{
    let whole = e.text();
    match e {
        LinuxErrorView::NetlinkConnect { kind, phase, source } => {
            part_between("failed to open "@, kind, " netlink socket during "@ + phase + ": "@ + source, whole);
            part_between("failed to open "@ + kind + " netlink socket during "@, phase, ": "@ + source, whole);
            part_between("failed to open "@ + kind + " netlink socket during "@ + phase + ": "@, source, Seq::<char>::empty(), whole);
        },
        LinuxErrorView::Dump { command, source } => {
            part_between("nl80211 "@, command, " dump failed: "@ + source, whole);
            part_between("nl80211 "@ + command + " dump failed: "@, source, Seq::<char>::empty(), whole);
        },
        LinuxErrorView::Timeout { command, timeout_ms } => {
            part_between("nl80211 "@, command, " dump timed out after "@ + crate::text::decimal(timeout_ms as nat) + " ms"@, whole);
            part_between("nl80211 "@ + command + " dump timed out after "@, crate::text::decimal(timeout_ms as nat), " ms"@, whole);
        },
        LinuxErrorView::OperationTimeout { op, timeout_ms } => {
            part_between(Seq::<char>::empty(), op, " timed out after "@ + crate::text::decimal(timeout_ms as nat) + " ms"@, whole);
            part_between(op + " timed out after "@, crate::text::decimal(timeout_ms as nat), " ms"@, whole);
        },
        LinuxErrorView::LinkSet { op, iface, source } => {
            part_between("failed to bring interface '"@, iface, "' link "@ + op + ": "@ + source, whole);
            part_between("failed to bring interface '"@ + iface + "' link "@, op, ": "@ + source, whole);
            part_between("failed to bring interface '"@ + iface + "' link "@ + op + ": "@, source, Seq::<char>::empty(), whole);
        },
        LinuxErrorView::SetMode { iface, source } => {
            part_between("failed to set interface '"@, iface, "' mode via nl80211: "@ + source, whole);
            part_between("failed to set interface '"@ + iface + "' mode via nl80211: "@, source, Seq::<char>::empty(), whole);
        },
        LinuxErrorView::SetChannel { iface, source } => {
            part_between("failed to set interface '"@, iface, "' channel via nl80211: "@ + source, whole);
            part_between("failed to set interface '"@ + iface + "' channel via nl80211: "@, source, Seq::<char>::empty(), whole);
        },
        LinuxErrorView::ChannelVerifyFailed { iface, requested_mhz, actual } => {
            part_between("interface '"@, iface, "' did not tune to "@ + crate::text::decimal(requested_mhz as nat) + " MHz after the set (reads as "@ + actual.text() + ")"@, whole);
            part_between("interface '"@ + iface + "' did not tune to "@, crate::text::decimal(requested_mhz as nat), " MHz after the set (reads as "@ + actual.text() + ")"@, whole);
            part_between("interface '"@ + iface + "' did not tune to "@ + crate::text::decimal(requested_mhz as nat) + " MHz after the set (reads as "@, actual.text(), ")"@, whole);
        },
        LinuxErrorView::WidthVerifyFailed { iface, primary_mhz, requested, actual } => {
            part_between("interface '"@, iface, "' tuned to "@ + crate::text::decimal(primary_mhz as nat) + " MHz but at "@ + actual.text() + " rather than the requested "@ + requested.text(), whole);
            part_between("interface '"@ + iface + "' tuned to "@, crate::text::decimal(primary_mhz as nat), " MHz but at "@ + actual.text() + " rather than the requested "@ + requested.text(), whole);
            part_between("interface '"@ + iface + "' tuned to "@ + crate::text::decimal(primary_mhz as nat) + " MHz but at "@, actual.text(), " rather than the requested "@ + requested.text(), whole);
            part_between("interface '"@ + iface + "' tuned to "@ + crate::text::decimal(primary_mhz as nat) + " MHz but at "@ + actual.text() + " rather than the requested "@, requested.text(), Seq::<char>::empty(), whole);
        },
        LinuxErrorView::MonitorVerifyFailed { iface } => {
            part_between("interface '"@, iface, "' did not enter monitor mode after the switch"@, whole);
        },
        LinuxErrorView::ManagedVerifyFailed { iface, actual } => {
            part_between("interface '"@, iface, "' did not return to managed mode after the switch (reads as "@ + actual.text() + ")"@, whole);
            part_between("interface '"@ + iface + "' did not return to managed mode after the switch (reads as "@, actual.text(), ")"@, whole);
        },
        LinuxErrorView::Rename { old, new, source } => {
            part_between("failed to rename interface '"@, old, "' to '"@ + new + "': "@ + source, whole);
            part_between("failed to rename interface '"@ + old + "' to '"@, new, "': "@ + source, whole);
            part_between("failed to rename interface '"@ + old + "' to '"@ + new + "': "@, source, Seq::<char>::empty(), whole);
        },
        LinuxErrorView::DbusConnect { source } => {
            part_between("failed to connect to the system D-Bus: "@, source, Seq::<char>::empty(), whole);
        },
        LinuxErrorView::NetworkManager { op, iface, source } => {
            part_between("NetworkManager "@, op, " failed for interface '"@ + iface + "': "@ + source, whole);
            part_between("NetworkManager "@ + op + " failed for interface '"@, iface, "': "@ + source, whole);
            part_between("NetworkManager "@ + op + " failed for interface '"@ + iface + "': "@, source, Seq::<char>::empty(), whole);
        },
        LinuxErrorView::Supplicant { op, iface, source } => {
            part_between("wpa_supplicant "@, op, " failed for interface '"@ + iface + "': "@ + source, whole);
            part_between("wpa_supplicant "@ + op + " failed for interface '"@, iface, "': "@ + source, whole);
            part_between("wpa_supplicant "@ + op + " failed for interface '"@ + iface + "': "@, source, Seq::<char>::empty(), whole);
        },
    }
}

/// An interface is reported on in six lines and one for each band: its name and score,
/// its mode, its driver and bus, its address, how it stands with monitor mode, and its
/// SSID. One that is in monitor mode is said to be in use.
pub proof fn a_report_says_what_was_detected(i: InterfaceView)
    ensures
        ({
            let lines = crate::cli::interface_lines(i);
            &&& lines.len() == 6 + i.bands.len()
            &&& part_of(i.name, lines[0])
            &&& part_of(crate::cli::signed(i.score()), lines[0])
            &&& part_of(i.mode.text(), lines[1])
            &&& i.mode == crate::interface::InterfaceMode::Monitor <==> lines[1]
                == "  mode     monitor  (in use; rfmon will not take this interface)"@
            &&& i.driver matches Some(driver) ==> part_of(driver, lines[2])
            &&& i.driver is None ==> part_of("unknown driver"@, lines[2])
            &&& part_of(i.bus.text(), lines[2])
            &&& part_of(crate::mac::mac_text(i.mac), lines[3])
            &&& part_of(
                if i.supported_modes.contains(crate::interface::InterfaceMode::Monitor) {
                    "advertised over nl80211"@
                } else if crate::select_laws::of_a_family(i) {
                    "not advertised, but this driver family supports it in practice"@
                } else {
                    "not supported"@
                },
                lines[4],
            )
            &&& i.ssid matches Some(ssid) ==> part_of(ssid, lines[5])
            &&& i.ssid is None ==> part_of("-"@, lines[5])
            &&& forall|b: int|
                0 <= b < i.bands.len() ==> {
                    let usable = crate::cli::usable_texts((#[trigger] i.bands[b]).frequencies);
                    &&& part_of(i.bands[b].kind.text(), lines[6 + b])
                    &&& part_of(crate::text::decimal(usable.len()), lines[6 + b])
                    &&& part_of(crate::text::joined(usable, ","@), lines[6 + b])
                }
        }),
{
    let lines = crate::cli::interface_lines(i);
    let none = Seq::<char>::empty();
    let score = crate::cli::signed(i.score());
    part_between(none, i.name, "  (score "@ + score + ")"@, lines[0]);
    part_between(i.name + "  (score "@, score, ")"@, lines[0]);
    reveal_strlit("  mode     monitor  (in use; rfmon will not take this interface)");
    reveal_strlit("  mode     ");
    reveal_strlit("monitor");
    reveal_strlit("managed");
    reveal_strlit("AP");
    reveal_strlit("adhoc");
    reveal_strlit("mesh");
    reveal_strlit("iftype(");
    if i.mode == crate::interface::InterfaceMode::Monitor {
        let rest = "  mode     monitor  (in use; rfmon will not take this interface)"@.skip(18);
        part_between("  mode     "@, "monitor"@, rest, lines[1]);
    } else {
        part_between("  mode     "@, i.mode.text(), none, lines[1]);
        let busy = "  mode     monitor  (in use; rfmon will not take this interface)"@;
        if lines[1] == busy {
            let text = i.mode.text();
            assert(lines[1][11] == text[0]);
            assert(lines[1][12] == text[1]);
            assert(busy[11] == 'm' && busy[12] == 'o');
            assert(false);
        }
    }
    let driver = match i.driver {
        Some(driver) => driver,
        None => "unknown driver"@,
    };
    part_between("  device   "@, driver, " on "@ + i.bus.text(), lines[2]);
    part_between("  device   "@ + driver + " on "@, i.bus.text(), none, lines[2]);
    part_between("  mac      "@, crate::mac::mac_text(i.mac), none, lines[3]);
    crate::select_laws::plausible_means_advertised_or_known(i);
    part_between("  monitor  "@, crate::cli::support_text(i), none, lines[4]);
    let ssid = match i.ssid {
        Some(ssid) => ssid,
        None => "-"@,
    };
    part_between("  ssid     "@, ssid, none, lines[5]);
    assert forall|b: int| 0 <= b < i.bands.len() implies ({
        let usable = crate::cli::usable_texts((#[trigger] i.bands[b]).frequencies);
        &&& part_of(i.bands[b].kind.text(), lines[6 + b])
        &&& part_of(crate::text::decimal(usable.len()), lines[6 + b])
        &&& part_of(crate::text::joined(usable, ","@), lines[6 + b])
    }) by {
        let usable = crate::cli::usable_texts(i.bands[b].frequencies);
        let kind = i.bands[b].kind.text();
        let count = crate::text::decimal(usable.len());
        let list = crate::text::joined(usable, ","@);
        let head = crate::text::padded(kind, 8);
        let line = lines[6 + b];
        assert(line == crate::cli::band_line(i.bands[b]));
        a_text_is_padded_behind(kind, 8);
        let blanks = head.skip(kind.len() as int);
        assert(head =~= kind + blanks);
        part_between("  "@, kind, blanks + " "@ + count + " usable: "@ + list, line);
        part_between("  "@ + head + " "@, count, " usable: "@ + list, line);
        part_between("  "@ + head + " "@ + count + " usable: "@, list, none, line);
    }
}

/// The report is on every interface, in order, with an empty line between two; of none,
/// it says that there is none.
pub proof fn a_report_is_on_every_interface(v: Seq<InterfaceView>, last: InterfaceView)
    ensures
        crate::cli::report(Seq::empty()) == seq!["no wireless interfaces found"@],
        crate::cli::report(seq![last]) == crate::cli::interface_lines(last),
        v.len() > 0 ==> crate::cli::report(v.push(last)) == crate::cli::report(v) + seq![""@]
            + crate::cli::interface_lines(last),
{
    assert(v.push(last).drop_last() =~= v);
}

} // verus!
