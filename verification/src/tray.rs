use vstd::prelude::*;
use crate::text::{byte_decimal, decimal, owned};
use vstd::string::*;

verus! {

/// Requests made from the tray menu.
#[derive(Debug, Clone, Copy, PartialEq, Eq, Structural)]
pub enum TrayEvent {
    Show,
    Hide,
    Quit,
}

/// Menu text for one part: its label, a colon and the level in percent, or
/// two dashes when the level is unknown.
pub open spec fn battery_line(label: Seq<char>, level: Option<u8>) -> Seq<char> {
    match level {
        Some(v) => label + seq![':', ' '] + decimal(v) + seq!['%'],
        None => label + seq![':', ' ', '-', '-'],
    }
}

fn battery_line_exec(label: &str, level: Option<u8>) -> (r: String)
    ensures
        r@ == battery_line(label@, level),
{
    let mut s = owned(label);
    proof {
        reveal_strlit(": ");
        reveal_strlit("%");
        reveal_strlit(": --");
    }
    match level {
        Some(v) => {
            s.append(": ");
            let d = byte_decimal(v);
            s.append(d.as_str());
            s.append("%");
            proof {
                assert(s@ =~= battery_line(label@, level));
            }
        },
        None => {
            s.append(": --");
            proof {
                assert(s@ =~= battery_line(label@, level));
            }
        },
    }
    s
}

/// The three battery lines of the tray menu, for the left bud, the case and
/// the right bud.
pub fn update_battery(left: Option<u8>, case: Option<u8>, right: Option<u8>) -> (r: (
    String,
    String,
    String,
))
    ensures
        r.0@ == battery_line("Left"@, left),
        r.1@ == battery_line("Case"@, case),
        r.2@ == battery_line("Right"@, right),
{
    (battery_line_exec("Left", left), battery_line_exec("Case", case), battery_line_exec("Right", right))
}

} // verus!
