//! What is handed to the commands that the operator configured: the name of
//! the file that carries a message, and the program and arguments to start.

use vstd::prelude::*;
use rand::Rng;
use crate::wire::{append, decimal, write_decimal};

verus! {

/// A program to start, with its arguments.
#[derive(Debug)]
pub struct Invocation {
    pub program: String,
    pub arguments: Vec<String>,
}

/// The contents of a list of strings.
pub open spec fn texts(list: Seq<String>) -> Seq<Seq<char>> {
    Seq::new(list.len(), |i: int| list[i]@)
}

/// An ASCII letter or digit.
pub open spec fn is_alphanumeric(b: u8) -> bool {
    (0x30 <= b && b <= 0x39) || (0x41 <= b && b <= 0x5A) || (0x61 <= b && b <= 0x7A)
}

/// A tag as it stands in the name of a message file: five ASCII letters or
/// digits.
pub open spec fn is_tag(tag: Seq<u8>) -> bool {
    tag.len() == 5 && forall|i: int| 0 <= i < 5 ==> is_alphanumeric(#[trigger] tag[i])
}

/// The name of the file that carries a message: `upsmsg-`, the tag, a hyphen,
/// the time in seconds since the Unix epoch, `.txt`.
pub open spec fn message_file_name(tag: Seq<u8>, now: u64) -> Seq<u8> {
    seq![0x75u8, 0x70u8, 0x73u8, 0x6Du8, 0x73u8, 0x67u8, 0x2Du8] + tag + seq![0x2Du8] + decimal(
        now as nat,
    ) + seq![0x2Eu8, 0x74u8, 0x78u8, 0x74u8]
}

/// Draws the tag of a message file with rand's `thread_rng`, sampling its
/// `Alphanumeric` distribution five times. The distribution picks each byte
/// from the upper-case and lower-case ASCII letters and the digits; which
/// ones come is left to chance, so nothing more is said of them.
#[verifier::external_body]
fn random_tag() -> (tag: Vec<u8>)
    ensures
        is_tag(tag@),
{
    rand::thread_rng().sample_iter(&rand::distributions::Alphanumeric).take(5).collect()
}

/// Writes the name of a message file from its tag and the time.
pub fn name_message_file(tag: &[u8], now: u64) -> (name: Vec<u8>)
    ensures
        name@ == message_file_name(tag@, now),
{
    let mut name: Vec<u8> = Vec::new();
    name.push(0x75);
    name.push(0x70);
    name.push(0x73);
    name.push(0x6D);
    name.push(0x73);
    name.push(0x67);
    name.push(0x2D);
    append(&mut name, tag);
    name.push(0x2D);
    let seconds = write_decimal(now);
    append(&mut name, seconds.as_slice());
    name.push(0x2E);
    name.push(0x74);
    name.push(0x78);
    name.push(0x74);
    proof {
        assert(name@ =~= message_file_name(tag@, now));
    }
    name
}

/// The name of a new message file for a message written at time `now`: the
/// name that a freshly drawn tag gives.
pub fn new_message_file_name(now: u64) -> (name: Vec<u8>)
    ensures
        exists|tag: Seq<u8>| is_tag(tag) && name@ == message_file_name(tag, now),
{
    let tag = random_tag();
    name_message_file(tag.as_slice(), now)
}

/// The arguments that a configured command line gives: all its words but the
/// first.
pub fn arguments_of(cmd: &Vec<String>) -> (arguments: Vec<String>)
    requires
        cmd.len() >= 1,
    ensures
        texts(arguments@) == texts(cmd@).subrange(1, cmd.len() as int),
{
    let mut arguments: Vec<String> = Vec::new();
    let mut i: usize = 1;
    while i < cmd.len()
        invariant
            1 <= i <= cmd.len(),
            texts(arguments@) =~= texts(cmd@).subrange(1, i as int),
        decreases cmd.len() - i,
    {
        let word = cmd[i].clone();
        proof {
            assert(word@ == cmd@[i as int]@);
            assert(texts(cmd@).subrange(1, i + 1) =~= texts(cmd@).subrange(1, i as int).push(
                word@,
            ));
        }
        arguments.push(word);
        i += 1;
    }
    arguments
}

/// How to start the command that tells the operator: its first word is the
/// program, the others are its arguments, and the path of the message file is
/// added as the last argument. (The message also goes to the program's
/// standard input, and its end is waited for.) `None` where the command line
/// is empty.
pub fn send_message(cmd: &Vec<String>, message_file: &String) -> (start: Option<Invocation>)
    ensures
        cmd.len() == 0 <==> start.is_none(),
        match start {
            Some(invocation) => {
                &&& invocation.program@ == cmd[0]@
                &&& texts(invocation.arguments@) == texts(cmd@).subrange(
                    1,
                    cmd.len() as int,
                ).push(message_file@)
            },
            None => true,
        },
{
    if cmd.len() == 0 {
        return None;
    }
    let mut arguments = arguments_of(cmd);
    arguments.push(message_file.clone());
    proof {
        assert(texts(arguments@) =~= texts(cmd@).subrange(1, cmd.len() as int).push(
            message_file@,
        ));
    }
    Some(Invocation { program: cmd[0].clone(), arguments })
}

/// How to start a configured command whose end is not waited for: its first
/// word is the program, the others are its arguments. `None` where the command
/// line is empty.
pub fn run_cmd(cmd: &Vec<String>) -> (start: Option<Invocation>)
    ensures
        cmd.len() == 0 <==> start.is_none(),
        match start {
            Some(invocation) => {
                &&& invocation.program@ == cmd[0]@
                &&& texts(invocation.arguments@) == texts(cmd@).subrange(1, cmd.len() as int)
            },
            None => true,
        },
{
    if cmd.len() == 0 {
        return None;
    }
    let arguments = arguments_of(cmd);
    Some(Invocation { program: cmd[0].clone(), arguments })
}

} // verus!
