//! Link-type classification and diagnostic text over the set of network
//! interfaces reported by the OS for the current tick.
//!
//! An interface counts as active exactly when its operational-state
//! indicator reads up; byte counters are informational only. Among active
//! interfaces, a name starting with `e` selects the ethernet icon, else a
//! name starting with `w` selects the wifi icon, else the disconnected
//! icon: wired wins ties by design.

use vstd::prelude::*;
use crate::numfmt::spec_decimal;
use crate::numfmt::decimal_string;

verus! {

/// One network interface as reported for the current tick.
#[derive(Debug)]
pub struct NetInterface {
    pub name: String,
    pub received: u64,
    pub transmitted: u64,
    pub is_up: bool,
}

/// The link-type glyph chosen for the status line.
#[derive(Debug, Clone, Copy, PartialEq, Eq, Structural)]
pub enum NetIcon {
    Ethernet,
    Wifi,
    Disconnected,
}

/// Some interface in `s` is active and its name starts with `c`.
pub open spec fn any_active_prefix(s: Seq<NetInterface>, c: char) -> bool {
    exists|k: int| 0 <= k < s.len() && (#[trigger] s[k]).is_up && s[k].name@.len() > 0
        && s[k].name@[0] == c
}

/// No interface in `s` is active.
pub open spec fn no_active(s: Seq<NetInterface>) -> bool {
    forall|k: int| 0 <= k < s.len() ==> !(#[trigger] s[k]).is_up
}

/// The icon the classifier owes for the interface set `s`.
pub open spec fn spec_classify(s: Seq<NetInterface>) -> NetIcon {
    if any_active_prefix(s, 'e') {
        NetIcon::Ethernet
    } else if any_active_prefix(s, 'w') {
        NetIcon::Wifi
    } else {
        NetIcon::Disconnected
    }
}

/// The diagnostic entry for one active interface:
/// `name(R:received,T:transmitted) `.
pub open spec fn spec_iface_entry(i: NetInterface) -> Seq<char> {
    i.name@ + seq!['(', 'R', ':'] + spec_decimal(i.received as nat) + seq![',', 'T', ':']
        + spec_decimal(i.transmitted as nat) + seq![')', ' ']
}

/// The concatenated entries of the active interfaces of `s`, in order.
pub open spec fn spec_active_entries(s: Seq<NetInterface>) -> Seq<char>
    decreases s.len(),
{
    if s.len() == 0 {
        Seq::empty()
    } else {
        spec_active_entries(s.drop_last()) + if s.last().is_up {
            spec_iface_entry(s.last())
        } else {
            Seq::empty()
        }
    }
}

/// The diagnostic text when nothing is active.
pub open spec fn no_active_text() -> Seq<char> {
    seq![
        'N',
        'o',
        ' ',
        'a',
        'c',
        't',
        'i',
        'v',
        'e',
        ' ',
        'i',
        'n',
        't',
        'e',
        'r',
        'f',
        'a',
        'c',
        'e',
        's',
    ]
}

/// The diagnostic text the classifier owes for the interface set `s`.
pub open spec fn spec_net_debug(s: Seq<NetInterface>) -> Seq<char> {
    if no_active(s) {
        no_active_text()
    } else {
        spec_active_entries(s)
    }
}

proof fn lemma_active_entries_empty(s: Seq<NetInterface>)
    requires
        no_active(s),
    ensures
        spec_active_entries(s) =~= Seq::<char>::empty(),
    decreases s.len(),
{
    if s.len() > 0 {
        assert(!s[s.len() - 1].is_up);
        lemma_active_entries_empty(s.drop_last());
    }
}

/// The classifier is total and deterministic: for any interface set exactly
/// one icon results, by the ethernet-over-wifi-over-disconnected precedence,
/// and an empty active set yields the disconnected icon together with the
/// literal no-active diagnostic.
pub proof fn lemma_classifier_precedence(s: Seq<NetInterface>)
    ensures
        spec_classify(s) == NetIcon::Ethernet <==> any_active_prefix(s, 'e'),
        spec_classify(s) == NetIcon::Wifi <==> !any_active_prefix(s, 'e') && any_active_prefix(
            s,
            'w',
        ),
        spec_classify(s) == NetIcon::Disconnected <==> !any_active_prefix(s, 'e')
            && !any_active_prefix(s, 'w'),
        no_active(s) ==> spec_classify(s) == NetIcon::Disconnected && spec_net_debug(s)
            == no_active_text(),
{
    if no_active(s) {
        assert(!any_active_prefix(s, 'e'));
        assert(!any_active_prefix(s, 'w'));
    }
}

/// Classify the current tick's interfaces: the link icon by the wired-first
/// precedence, and the diagnostic listing of every active interface with
/// its byte counters (or the no-active text).
pub fn classify_network(ifaces: &Vec<NetInterface>) -> (r: (NetIcon, String))
    ensures
        r.0 == spec_classify(ifaces@),
        r.1@ == spec_net_debug(ifaces@),
{
    let ghost all: Seq<NetInterface> = ifaces@;
    let mut debug = String::new();
    let mut any_up = false;
    let mut any_e = false;
    let mut any_w = false;
    let mut idx: usize = 0;
    while idx < ifaces.len()
        invariant
            0 <= idx <= ifaces.len(),
            all == ifaces@,
            any_e == any_active_prefix(all.take(idx as int), 'e'),
            any_w == any_active_prefix(all.take(idx as int), 'w'),
            any_up == !no_active(all.take(idx as int)),
            debug@ == spec_active_entries(all.take(idx as int)),
        decreases ifaces.len() - idx,
    {
        let ghost pre: Seq<NetInterface> = all.take(idx as int);
        let ghost post: Seq<NetInterface> = all.take(idx as int + 1);
        proof {
            assert(post.drop_last() =~= pre);
            assert(post.last() == all[idx as int]);
        }
        let f = &ifaces[idx];
        if f.is_up {
            any_up = true;
            let name_len = f.name.as_str().unicode_len();
            if name_len > 0 {
                let c0 = f.name.as_str().get_char(0);
                if c0 == 'e' {
                    any_e = true;
                } else if c0 == 'w' {
                    any_w = true;
                }
            }
            proof {
                reveal_strlit("(R:");
                reveal_strlit(",T:");
                reveal_strlit(") ");
            }
            debug.append(f.name.as_str());
            debug.append("(R:");
            let rx = decimal_string(f.received);
            debug.append(rx.as_str());
            debug.append(",T:");
            let tx = decimal_string(f.transmitted);
            debug.append(tx.as_str());
            debug.append(") ");
            proof {
                assert("(R:"@ =~= seq!['(', 'R', ':']);
                assert(",T:"@ =~= seq![',', 'T', ':']);
                assert(") "@ =~= seq![')', ' ']);
                assert(debug@ =~= spec_active_entries(pre) + spec_iface_entry(all[idx as int]));
            }
        }
        proof {
            let i = idx as int;
            if !any_e {
                assert forall|k: int|
                    !(0 <= k < post.len() && (#[trigger] post[k]).is_up && post[k].name@.len() > 0
                        && post[k].name@[0] == 'e') by {
                    if 0 <= k < i {
                        assert(!(pre[k].is_up && pre[k].name@.len() > 0 && pre[k].name@[0] == 'e'));
                    }
                }
            }
            if !any_w {
                assert forall|k: int|
                    !(0 <= k < post.len() && (#[trigger] post[k]).is_up && post[k].name@.len() > 0
                        && post[k].name@[0] == 'w') by {
                    if 0 <= k < i {
                        assert(!(pre[k].is_up && pre[k].name@.len() > 0 && pre[k].name@[0] == 'w'));
                    }
                }
            }
            if any_e {
                assert(any_active_prefix(post, 'e'));
            }
            if any_w {
                assert(any_active_prefix(pre, 'w') ==> any_active_prefix(post, 'w'));
                assert(any_active_prefix(post, 'w'));
            }
            if any_up {
                assert(!no_active(post));
            } else {
                assert(no_active(pre));
                assert(!all[i].is_up);
                assert(no_active(post));
            }
        }
        idx += 1;
    }
    proof {
        assert(all.take(ifaces@.len() as int) =~= ifaces@);
    }
    let icon = if any_e {
        NetIcon::Ethernet
    } else if any_w {
        NetIcon::Wifi
    } else {
        NetIcon::Disconnected
    };
    if !any_up {
        proof {
            reveal_strlit("No active interfaces");
            lemma_active_entries_empty(ifaces@);
        }
        debug.append("No active interfaces");
        proof {
            assert("No active interfaces"@ =~= no_active_text());
            assert(debug@ =~= no_active_text());
        }
    }
    (icon, debug)
}

} // verus!
