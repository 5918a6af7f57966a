use vstd::prelude::*;

use crate::app::CommandView;
use crate::domain::role::{Role, role_from_lowercase};
use crate::text::{
    equals_literal, parse_u64, parse_u64_spec, parse_u8, parse_u8_spec, parsed_numbers, split_words_of,
    strings_view, words,
};

verus! {

/// What the host can type: commands for the engine and for the console.
#[derive(Debug)]
pub enum Command {
    Join { name: String },
    Leave { name: String },
    Start,
    Next,
    AssignRole,
    RevokeRole,
    Warn { position: u8 },
    Pardon { position: u8 },
    Nominate { position: u8 },
    Vote { positions: Vec<u8> },
    Shoot { position: u8 },
    Check { position: u8 },
    Guess { targets: Vec<u8> },
    Assign { command: Option<AssignCommand> },
    Timer { seconds: u64 },
    End { file_name: String },
    Quit,
}

/// What to move on: the phase or the acting player.
#[derive(Debug, Clone, Copy, PartialEq, Eq, Structural)]
pub enum NextCommand {
    Phase,
    Actor,
}

/// What to assign: a player to the table, or a role.
#[derive(Debug)]
pub enum AssignCommand {
    Player { name: String },
    Role { role: Option<Role> },
}

/// Whether a word can stand as a value: anything but an option (a word
/// beginning with `-`, a lone `-` being a value).
pub open spec fn plain_value(w: Seq<char>) -> bool {
    w.len() > 0 && (w[0] != '-' || w.len() == 1)
}

/// Whether every word is a seat number.
pub open spec fn all_numbers(ws: Seq<Seq<char>>) -> bool {
    forall|i: int| 0 <= i < ws.len() ==> parse_u8_spec(#[trigger] ws[i]) is Some
}

/// The single seat number given, if exactly one word is given and it is one.
pub open spec fn one_number(args: Seq<Seq<char>>) -> Option<u8> {
    if args.len() == 1 {
        parse_u8_spec(args[0])
    } else {
        None
    }
}

/// The single value given, if exactly one word is given and it is a value.
pub open spec fn one_value(args: Seq<Seq<char>>) -> Option<Seq<char>> {
    if args.len() == 1 && plain_value(args[0]) {
        Some(args[0])
    } else {
        None
    }
}

/// The command a typed line names, by its words: the command's name, then
/// its arguments (a name or file, a seat number from 0 to 255, a list of
/// seat numbers, a number of seconds, or what to assign); `None` for a line
/// that names no command or gives it the wrong arguments.
pub open spec fn command_of(ws: Seq<Seq<char>>) -> Option<CommandView> {
    if ws.len() == 0 {
        None
    } else {
        let h = ws[0];
        let a = ws.drop_first();
        if h == "join"@ {
            match one_value(a) {
                Some(name) => Some(CommandView::Join { name }),
                None => None,
            }
        } else if h == "leave"@ {
            match one_value(a) {
                Some(name) => Some(CommandView::Leave { name }),
                None => None,
            }
        } else if h == "start"@ {
            if a.len() == 0 { Some(CommandView::Start) } else { None }
        } else if h == "next"@ {
            if a.len() == 0 { Some(CommandView::Next) } else { None }
        } else if h == "assign-role"@ {
            if a.len() == 0 { Some(CommandView::AssignRole) } else { None }
        } else if h == "revoke-role"@ {
            if a.len() == 0 { Some(CommandView::RevokeRole) } else { None }
        } else if h == "quit"@ {
            if a.len() == 0 { Some(CommandView::Quit) } else { None }
        } else if h == "warn"@ {
            match one_number(a) {
                Some(position) => Some(CommandView::Warn { position }),
                None => None,
            }
        } else if h == "pardon"@ {
            match one_number(a) {
                Some(position) => Some(CommandView::Pardon { position }),
                None => None,
            }
        } else if h == "nominate"@ {
            match one_number(a) {
                Some(position) => Some(CommandView::Nominate { position }),
                None => None,
            }
        } else if h == "shoot"@ {
            match one_number(a) {
                Some(position) => Some(CommandView::Shoot { position }),
                None => None,
            }
        } else if h == "check"@ {
            match one_number(a) {
                Some(position) => Some(CommandView::Check { position }),
                None => None,
            }
        } else if h == "vote"@ {
            if all_numbers(a) { Some(CommandView::Vote { positions: parsed_numbers(a) }) } else { None }
        } else if h == "guess"@ {
            if all_numbers(a) { Some(CommandView::Guess { targets: parsed_numbers(a) }) } else { None }
        } else if h == "timer"@ {
            if a.len() == 1 && parse_u64_spec(a[0]) is Some {
                Some(CommandView::Timer { seconds: parse_u64_spec(a[0]).unwrap() })
            } else {
                None
            }
        } else if h == "end"@ {
            match one_value(a) {
                Some(file_name) => Some(CommandView::End { file_name }),
                None => None,
            }
        } else if h == "assign"@ {
            if a.len() == 0 {
                Some(CommandView::AssignUnspecified)
            } else if a[0] == "player"@ {
                match one_value(a.drop_first()) {
                    Some(name) => Some(CommandView::AssignPlayer { name }),
                    None => None,
                }
            } else if a[0] == "role"@ {
                if a.len() == 1 {
                    Some(CommandView::AssignAnyRole)
                } else if a.len() == 2 && role_from_lowercase(a[1]) is Some {
                    Some(CommandView::AssignRoleNamed { role: role_from_lowercase(a[1]).unwrap() })
                } else {
                    None
                }
            } else {
                None
            }
        } else {
            None
        }
    }
}

/// Whether a word can stand as a value.
fn is_plain_value(w: &String) -> (b: bool)
    ensures
        b == plain_value(w@),
{
    let n = w.as_str().unicode_len();
    n > 0 && (w.as_str().get_char(0) != '-' || n == 1)
}

/// The seat numbers of the words from index `from` on, if each is one.
fn numbers_from(ws: &Vec<String>, from: usize) -> (r: Option<Vec<u8>>)
    requires
        from <= ws.len(),
    ensures
        ({
            let args = strings_view(ws@).subrange(from as int, ws@.len() as int);
            &&& all_numbers(args) ==> (r matches Some(v) && v@ == parsed_numbers(args))
            &&& !all_numbers(args) ==> r is None
        }),
{
    let ghost all = strings_view(ws@);
    let mut v: Vec<u8> = Vec::new();
    let mut i: usize = from;
    while i < ws.len()
        invariant
            from <= i <= ws.len(),
            all == strings_view(ws@),
            all_numbers(all.subrange(from as int, i as int)),
            v@ == parsed_numbers(all.subrange(from as int, i as int)),
        decreases ws.len() - i,
    {
        let ghost pre = all.subrange(from as int, i as int);
        let ghost next = all.subrange(from as int, i + 1);
        assert(next.drop_last() =~= pre);
        assert(next.last() == ws@[i as int]@);
        match parse_u8(ws[i].as_str()) {
            Some(n) => {
                v.push(n);
                assert forall|k: int| 0 <= k < next.len() implies parse_u8_spec(#[trigger] next[k]) is Some by {
                    if k < pre.len() {
                        assert(next[k] == pre[k]);
                    }
                }
            },
            None => {
                proof {
                    let args = all.subrange(from as int, ws@.len() as int);
                    assert(args[i - from] == ws@[i as int]@);
                }
                return None;
            },
        }
        i = i + 1;
    }
    assert(all.subrange(from as int, ws@.len() as int) =~= all.subrange(from as int, i as int));
    Some(v)
}

/// Reads a typed command line: the command it names, or `None` when it names
/// none or gives the wrong arguments.
pub fn parse_command(line: &str) -> (r: Option<Command>)
    ensures
        r matches Some(c) ==> command_of(words(line@)) == Some(c@),
        r is None <==> command_of(words(line@)) is None,
{
    let ws = split_words_of(line);
    let ghost all = strings_view(ws@);
    assert(all == words(line@));
    if ws.len() == 0 {
        return None;
    }
    proof {
        assert forall|k: int| 0 <= k < ws@.len() implies (#[trigger] all[k]) == ws@[k]@ by {}
    }
    let ghost args = all.drop_first();
    assert(args =~= all.subrange(1, all.len() as int));
    let n = ws.len();
    let h = &ws[0];
    if equals_literal(h, "join") {
        if n == 2 && is_plain_value(&ws[1]) {
            let value = ws[1].clone();
            return Some(Command::Join { name: value });
        }
        return None;
    }
    if equals_literal(h, "leave") {
        if n == 2 && is_plain_value(&ws[1]) {
            let value = ws[1].clone();
            return Some(Command::Leave { name: value });
        }
        return None;
    }
    if equals_literal(h, "start") {
        if n == 1 {
            return Some(Command::Start);
        }
        return None;
    }
    if equals_literal(h, "next") {
        if n == 1 {
            return Some(Command::Next);
        }
        return None;
    }
    if equals_literal(h, "assign-role") {
        if n == 1 {
            return Some(Command::AssignRole);
        }
        return None;
    }
    if equals_literal(h, "revoke-role") {
        if n == 1 {
            return Some(Command::RevokeRole);
        }
        return None;
    }
    if equals_literal(h, "quit") {
        if n == 1 {
            return Some(Command::Quit);
        }
        return None;
    }
    if equals_literal(h, "warn") {
        if n != 2 {
            return None;
        }
        return match parse_u8(ws[1].as_str()) {
            Some(position) => Some(Command::Warn { position }),
            None => None,
        };
    }
    if equals_literal(h, "pardon") {
        if n != 2 {
            return None;
        }
        return match parse_u8(ws[1].as_str()) {
            Some(position) => Some(Command::Pardon { position }),
            None => None,
        };
    }
    if equals_literal(h, "nominate") {
        if n != 2 {
            return None;
        }
        return match parse_u8(ws[1].as_str()) {
            Some(position) => Some(Command::Nominate { position }),
            None => None,
        };
    }
    if equals_literal(h, "shoot") {
        if n != 2 {
            return None;
        }
        return match parse_u8(ws[1].as_str()) {
            Some(position) => Some(Command::Shoot { position }),
            None => None,
        };
    }
    if equals_literal(h, "check") {
        if n != 2 {
            return None;
        }
        return match parse_u8(ws[1].as_str()) {
            Some(position) => Some(Command::Check { position }),
            None => None,
        };
    }
    if equals_literal(h, "vote") {
        return match numbers_from(&ws, 1) {
            Some(positions) => Some(Command::Vote { positions }),
            None => None,
        };
    }
    if equals_literal(h, "guess") {
        return match numbers_from(&ws, 1) {
            Some(targets) => Some(Command::Guess { targets }),
            None => None,
        };
    }
    if equals_literal(h, "timer") {
        if n != 2 {
            return None;
        }
        return match parse_u64(ws[1].as_str()) {
            Some(seconds) => Some(Command::Timer { seconds }),
            None => None,
        };
    }
    if equals_literal(h, "end") {
        if n == 2 && is_plain_value(&ws[1]) {
            let value = ws[1].clone();
            return Some(Command::End { file_name: value });
        }
        return None;
    }
    if equals_literal(h, "assign") {
        if n == 1 {
            return Some(Command::Assign { command: None });
        }
        if equals_literal(&ws[1], "player") {
            proof {
                if n == 3 {
                    assert(args.drop_first() =~= seq![all[2]]);
                }
            }
            if n == 3 && is_plain_value(&ws[2]) {
                let name = ws[2].clone();
                return Some(Command::Assign { command: Some(AssignCommand::Player { name }) });
            }
            return None;
        }
        if equals_literal(&ws[1], "role") {
            if n == 2 {
                return Some(Command::Assign { command: Some(AssignCommand::Role { role: None }) });
            }
            if n == 3 {
                return match Role::parse_lowercase(&ws[2]) {
                    Ok(role) => Some(Command::Assign { command: Some(AssignCommand::Role { role: Some(role) }) }),
                    Err(_) => None,
                };
            }
            return None;
        }
        return None;
    }
    None
}

} // verus!
