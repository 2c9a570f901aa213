//! The one-shot registration the default mode sends to the bar manager:
//! declare a bar, its status command and its font, in order.

use vstd::prelude::*;

verus! {

/// The three registration commands, in the order they must be executed.
pub fn bar_commands() -> (r: Vec<String>)
    ensures
        r@.len() == 3,
        r@[0]@ == "bar new_bar position top"@,
        r@[1]@ == "bar new_bar status_command ~/.cargo/bin/statusbar --status"@,
        r@[2]@ == "bar new_bar font pango:Berkeley Mono 9, Font Awesome 6 Free Solid 9"@,
{
    let mut v: Vec<String> = Vec::new();
    v.push(String::from_str("bar new_bar position top"));
    v.push(String::from_str("bar new_bar status_command ~/.cargo/bin/statusbar --status"));
    v.push(String::from_str("bar new_bar font pango:Berkeley Mono 9, Font Awesome 6 Free Solid 9"));
    v
}

} // verus!
