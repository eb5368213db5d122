//! The UPS end of the serial line: what a status reply says, and how the
//! commands are written.

use vstd::prelude::*;
use vstd::slice::slice_subrange;
use crate::wire::{
    all_digits, append, digits_value, is_digit, lemma_split_nonempty, number, only_digits,
    parse_number, split, split_fields, views,
};

verus! {

/// The byte that ends every frame on the line: a carriage return.
pub const TERMINATOR: u8 = 0x0D;

/// Any failure on the line or in what came over it. There is one kind; the
/// text is for the operator.
#[derive(Clone, Debug)]
pub struct CommError {
    pub description: String,
}

/// One exchange with the UPS: the command to write, and whether a line of
/// reply is to be read after it.
#[derive(Clone, Debug)]
pub struct Exchange {
    pub command: Vec<u8>,
    pub need_response: bool,
}

/// What the UPS reported in one status reply. Voltages are in millivolts.
#[derive(Clone, Copy, Debug, PartialEq, Eq, Structural)]
pub struct UpsStatusInfo {
    pub input_voltage: u32,
    pub output_voltage: u32,
    pub load_percentage: u8,
    pub battery_voltage: u32,
    pub beeper_active: bool,
    pub mains_fail: bool,
    pub battery_low: bool,
    pub buck_boost_active: bool,
    pub fault: bool,
    pub line_interactive: bool,
    pub self_test_running: bool,
    pub shutdown_active: bool,
}

/// The millivolts that the digits after the point stand for: tenths,
/// hundredths or thousandths of a volt, by how many digits there are. Digits
/// after the third are too fine to count.
pub open spec fn fraction_millivolts(fraction: Seq<u8>) -> nat {
    if fraction.len() == 1 {
        digits_value(fraction) * 100
    } else if fraction.len() == 2 {
        digits_value(fraction) * 10
    } else if fraction.len() == 3 {
        digits_value(fraction)
    } else if fraction.len() > 3 {
        digits_value(fraction.take(3))
    } else {
        0
    }
}

/// What a voltage field means, in millivolts: up to six digits of volts, then
/// optionally a point and the digits of a fraction.
pub open spec fn millivolts(s: Seq<u8>) -> Option<nat> {
    let parts = split(s, 0x2E);
    let fraction = if parts.len() == 2 {
        parts[1]
    } else {
        Seq::<u8>::empty()
    };
    if parts.len() <= 2 && all_digits(fraction) {
        match number(parts[0], 999_999) {
            Some(volts) => Some(volts * 1000 + fraction_millivolts(fraction)),
            None => None,
        }
    } else {
        None
    }
}

/// A status word: eight characters, each `0` or `1`.
pub open spec fn is_status_word(s: Seq<u8>) -> bool {
    s.len() == 8 && forall|i: int| 0 <= i < 8 ==> (#[trigger] s[i] == 0x30 || s[i] == 0x31)
}

/// Bit `bit` of a status word. The word is written most significant bit
/// first, so bit 0 is its last character.
pub open spec fn status_bit(s: Seq<u8>, bit: int) -> bool {
    s[7 - bit] == 0x31
}

/// What a reply to the status query says, where it is well formed: an opening
/// parenthesis, then fields separated by single spaces, of which the first,
/// third and sixth are voltages, the fourth is the load and the eighth is the
/// status word.
pub open spec fn status_info(reply: Seq<u8>) -> Option<UpsStatusInfo> {
    if reply.len() >= 1 && reply[0] == 0x28 {
        let fields = split(reply.subrange(1, reply.len() as int), 0x20);
        if fields.len() >= 8 && millivolts(fields[0]).is_some() && millivolts(
            fields[2],
        ).is_some() && number(fields[3], 255).is_some() && millivolts(fields[5]).is_some()
            && is_status_word(fields[7]) {
            Some(
                UpsStatusInfo {
                    input_voltage: millivolts(fields[0]).unwrap() as u32,
                    output_voltage: millivolts(fields[2]).unwrap() as u32,
                    load_percentage: number(fields[3], 255).unwrap() as u8,
                    battery_voltage: millivolts(fields[5]).unwrap() as u32,
                    beeper_active: status_bit(fields[7], 0),
                    shutdown_active: status_bit(fields[7], 1),
                    self_test_running: status_bit(fields[7], 2),
                    line_interactive: status_bit(fields[7], 3),
                    fault: status_bit(fields[7], 4),
                    buck_boost_active: status_bit(fields[7], 5),
                    battery_low: status_bit(fields[7], 6),
                    mains_fail: status_bit(fields[7], 7),
                },
            )
        } else {
            None
        }
    } else {
        None
    }
}

/// The two characters that stand for a cutoff delay of `tenths` tenths of a
/// minute.
pub open spec fn delay_field(tenths: int) -> Seq<u8> {
    if tenths == 0 {
        seq![0x30u8, 0x30u8]
    } else if 1 <= tenths <= 9 {
        seq![0x2Eu8, (0x30 + tenths) as u8]
    } else if 10 <= tenths <= 99 {
        seq![0x30u8, (0x30 + tenths / 10) as u8]
    } else {
        seq![0x39u8, 0x39u8]
    }
}

/// The four digits that stand for a recovery delay in minutes; more than 9999
/// is written as 9999.
pub open spec fn recover_field(minutes: int) -> Seq<u8> {
    let m = if minutes > 9999 {
        9999
    } else {
        minutes
    };
    seq![
        (0x30 + m / 1000) as u8,
        (0x30 + (m / 100) % 10) as u8,
        (0x30 + (m / 10) % 10) as u8,
        (0x30 + m % 10) as u8,
    ]
}

/// The cutoff command: `S`, the delay, `R`, the recovery delay.
pub open spec fn shutdown_command(tenths: int, minutes: int) -> Seq<u8> {
    seq![0x53u8] + delay_field(tenths) + seq![0x52u8] + recover_field(minutes)
}

/// Reads a voltage field, in millivolts.
pub fn parse_millivolts(s: &[u8]) -> (r: Option<u32>)
    ensures
        match r {
            Some(v) => millivolts(s@) == Some(v as nat),
            None => millivolts(s@).is_none(),
        },
{
    let parts = split_fields(s, 0x2E);
    proof {
        lemma_split_nonempty(s@, 0x2E);
        assert(views(parts@)[0] == parts@[0]@);
    }
    if parts.len() > 2 {
        return None;
    }
    let mut fraction: u32 = 0;
    if parts.len() == 2 {
        proof {
            assert(views(parts@)[1] == parts@[1]@);
        }
        let written: &Vec<u8> = &parts[1];
        if !only_digits(written.as_slice()) {
            return None;
        }
        let digits: usize = if written.len() > 3 {
            3
        } else {
            written.len()
        };
        let counted = slice_subrange(written.as_slice(), 0, digits);
        proof {
            assert(counted@ =~= written@.take(digits as int));
            assert(written.len() <= 3 ==> counted@ =~= written@);
            assert(all_digits(counted@));
            lemma_short_value(counted@);
        }
        if digits > 0 {
            match parse_number(counted, 999) {
                Some(read) => {
                    let v: u32 = read as u32;
                    fraction = if digits == 1 {
                        v * 100
                    } else if digits == 2 {
                        v * 10
                    } else {
                        v
                    };
                },
                // Up to three digits always make a number under a thousand.
                None => {
                    return None;
                },
            }
        }
        proof {
            assert(fraction == fraction_millivolts(written@));
        }
    }
    match parse_number(parts[0].as_slice(), 999_999) {
        Some(volts) => Some(volts as u32 * 1000 + fraction),
        None => None,
    }
}

/// Up to three digits write a number below a thousand, and below ten or a
/// hundred where there are fewer.
pub proof fn lemma_short_value(s: Seq<u8>)
    requires
        s.len() <= 3,
        all_digits(s),
    ensures
        digits_value(s) <= 999,
        s.len() <= 2 ==> digits_value(s) <= 99,
        s.len() <= 1 ==> digits_value(s) <= 9,
        s.len() == 0 ==> digits_value(s) == 0,
    decreases s.len(),
{
    if s.len() > 0 {
        assert(is_digit(s[s.len() - 1]));
        lemma_short_value(s.drop_last());
    }
}

/// Tells whether `s` is a status word.
pub fn valid_status_word(s: &[u8]) -> (ok: bool)
    ensures
        ok == is_status_word(s@),
{
    if s.len() != 8 {
        return false;
    }
    let mut i: usize = 0;
    while i < 8
        invariant
            i <= 8,
            s.len() == 8,
            forall|j: int| 0 <= j < i ==> (#[trigger] s@[j] == 0x30 || s@[j] == 0x31),
        decreases 8 - i,
    {
        if s[i] != 0x30 && s[i] != 0x31 {
            return false;
        }
        i += 1;
    }
    true
}

/// Decodes the reply to the status query.
///
/// Succeeds exactly on the replies that `status_info` gives a meaning to, with
/// that meaning; every other reply is a communication error.
pub fn ups_query_status(reply: &[u8]) -> (r: Result<UpsStatusInfo, CommError>)
    ensures
        match r {
            Ok(info) => status_info(reply@) == Some(info),
            Err(_) => status_info(reply@).is_none(),
        },
{
    if reply.len() == 0 || reply[0] != 0x28 {
        return Err(CommError { description: "Invalid UPS response to QS.".to_owned() });
    }
    let fields = split_fields(slice_subrange(reply, 1, reply.len()), 0x20);
    if fields.len() < 8 {
        return Err(CommError { description: "UPS response to QS is too short.".to_owned() });
    }
    proof {
        assert(views(fields@)[0] == fields@[0]@);
        assert(views(fields@)[2] == fields@[2]@);
        assert(views(fields@)[3] == fields@[3]@);
        assert(views(fields@)[5] == fields@[5]@);
        assert(views(fields@)[7] == fields@[7]@);
    }
    let input = parse_millivolts(fields[0].as_slice());
    let output = parse_millivolts(fields[2].as_slice());
    let load = parse_number(fields[3].as_slice(), 255);
    let battery = parse_millivolts(fields[5].as_slice());
    let word: &Vec<u8> = &fields[7];
    if !valid_status_word(word.as_slice()) {
        return Err(CommError { description: "Invalid status word from UPS.".to_owned() });
    }
    match (input, output, load, battery) {
        (Some(input_voltage), Some(output_voltage), Some(load_percentage), Some(battery_voltage)) => Ok(
            UpsStatusInfo {
                input_voltage,
                output_voltage,
                load_percentage: load_percentage as u8,
                battery_voltage,
                beeper_active: word[7] == 0x31,
                shutdown_active: word[6] == 0x31,
                self_test_running: word[5] == 0x31,
                line_interactive: word[4] == 0x31,
                fault: word[3] == 0x31,
                buck_boost_active: word[2] == 0x31,
                battery_low: word[1] == 0x31,
                mains_fail: word[0] == 0x31,
            },
        ),
        _ => Err(CommError { description: "Invalid number from UPS.".to_owned() }),
    }
}

/// The exchange that sends `cmd` and reads one line of reply.
pub fn ups_query(cmd: &[u8]) -> (e: Exchange)
    ensures
        e.command@ == cmd@,
        e.need_response,
{
    let mut command: Vec<u8> = Vec::new();
    append(&mut command, cmd);
    Exchange { command, need_response: true }
}

/// The exchange that sends `cmd` and reads nothing after it.
pub fn ups_cmd(cmd: &[u8]) -> (e: Exchange)
    ensures
        e.command@ == cmd@,
        !e.need_response,
{
    let mut command: Vec<u8> = Vec::new();
    append(&mut command, cmd);
    Exchange { command, need_response: false }
}

/// The exchange that asks for the status: `QS`, with a reply.
pub fn ups_status_query() -> (e: Exchange)
    ensures
        e.command@ == seq![0x51u8, 0x53u8],
        e.need_response,
{
    let mut command: Vec<u8> = Vec::new();
    command.push(0x51);
    command.push(0x53);
    proof {
        assert(command@ =~= seq![0x51u8, 0x53u8]);
    }
    Exchange { command, need_response: true }
}

/// The exchange that arms the cutoff: the load is switched off after
/// `delay_tenths` tenths of a minute and, once mains is back, on again after
/// `recover_minutes` minutes. No reply is read.
pub fn ups_shutdown(delay_tenths: i32, recover_minutes: u32) -> (e: Exchange)
    ensures
        e.command@ == shutdown_command(delay_tenths as int, recover_minutes as int),
        !e.need_response,
{
    let mut command: Vec<u8> = Vec::new();
    command.push(0x53);
    if delay_tenths == 0 {
        command.push(0x30);
        command.push(0x30);
    } else if 1 <= delay_tenths && delay_tenths <= 9 {
        command.push(0x2E);
        command.push(0x30 + delay_tenths as u8);
    } else if 10 <= delay_tenths && delay_tenths <= 99 {
        command.push(0x30);
        command.push(0x30 + (delay_tenths / 10) as u8);
    } else {
        command.push(0x39);
        command.push(0x39);
    }
    command.push(0x52);
    let m: u32 = if recover_minutes > 9999 {
        9999
    } else {
        recover_minutes
    };
    command.push(0x30 + (m / 1000) as u8);
    command.push(0x30 + ((m / 100) % 10) as u8);
    command.push(0x30 + ((m / 10) % 10) as u8);
    command.push(0x30 + (m % 10) as u8);
    proof {
        assert(command@ =~= shutdown_command(delay_tenths as int, recover_minutes as int));
    }
    Exchange { command, need_response: false }
}

/// The exchange that cancels an armed cutoff: `C`, without a reply.
pub fn ups_cancel_shutdown() -> (e: Exchange)
    ensures
        e.command@ == seq![0x43u8],
        !e.need_response,
{
    let mut command: Vec<u8> = Vec::new();
    command.push(0x43);
    proof {
        assert(command@ =~= seq![0x43u8]);
    }
    Exchange { command, need_response: false }
}

/// The cutoff command has a fixed shape whatever the delays: `S`, two
/// characters, `R`, four digits that read back as the minutes (as 9999 where
/// there are more), and no terminator among them.
pub proof fn law_shutdown_command_shape(tenths: int, minutes: int)
    requires
        0 <= minutes,
    ensures
        delay_field(tenths).len() == 2,
        recover_field(minutes).len() == 4,
        all_digits(recover_field(minutes)),
        digits_value(recover_field(minutes)) == if minutes > 9999 {
            9999
        } else {
            minutes
        },
        shutdown_command(tenths, minutes).len() == 8,
        shutdown_command(tenths, minutes)[0] == 0x53,
        shutdown_command(tenths, minutes)[3] == 0x52,
        forall|i: int| 0 <= i < 8 ==> #[trigger] shutdown_command(tenths, minutes)[i] != TERMINATOR,
{
    let r = recover_field(minutes);
    let r3 = r.drop_last();
    let r2 = r3.drop_last();
    let r1 = r2.drop_last();
    assert(r1.drop_last() =~= Seq::<u8>::empty());
    assert(digits_value(r1.drop_last()) == 0);
    assert(digits_value(r1) == digits_value(r1.drop_last()) * 10 + (r1.last() - 48) as nat);
    assert(digits_value(r2) == digits_value(r1) * 10 + (r2.last() - 48) as nat);
    assert(digits_value(r3) == digits_value(r2) * 10 + (r3.last() - 48) as nat);
    assert(digits_value(r) == digits_value(r3) * 10 + (r.last() - 48) as nat);
}

} // verus!
