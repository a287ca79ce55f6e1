use vstd::prelude::*;

use crate::text::{dec_text, hex_text, push_dec, push_hex};

verus! {

/// A socket address: an IP address, held as its bits in network order, with a
/// port and, for IPv6, the flow information and scope id.
#[derive(PartialEq, Eq, Structural, Clone, Copy, Debug)]
pub enum SocketAddress {
    V4 { ip: u32, port: u16 },
    V6 { ip: u128, port: u16, flowinfo: u32, scope_id: u32 },
}

/// Octet `i` (0 is the first) of an IPv4 address.
pub open spec fn v4_octet(bits: u32, i: nat) -> nat {
    ((bits as nat) / pow256(3 - i)) % 256
}

pub open spec fn pow256(k: int) -> nat {
    if k == 0 {
        1
    } else if k == 1 {
        256
    } else if k == 2 {
        65536
    } else {
        16777216
    }
}

/// What an IPv6 address's bits are divided by to bring group `i` (0 is the first) to the end.
pub open spec fn group_divisor(i: nat) -> nat {
    if i == 0 {
        5192296858534827628530496329220096
    } else if i == 1 {
        79228162514264337593543950336
    } else if i == 2 {
        1208925819614629174706176
    } else if i == 3 {
        18446744073709551616
    } else if i == 4 {
        281474976710656
    } else if i == 5 {
        4294967296
    } else if i == 6 {
        65536
    } else {
        1
    }
}

/// 16-bit group `i` (0 is the first) of an IPv6 address.
pub open spec fn v6_group(bits: u128, i: nat) -> nat {
    ((bits as nat) / group_divisor(i)) % 65536
}

/// Dotted-decimal text of an IPv4 address.
pub open spec fn v4_text(bits: u32) -> Seq<char> {
    dec_text(v4_octet(bits, 0)) + seq!['.'] + dec_text(v4_octet(bits, 1)) + seq!['.']
        + dec_text(v4_octet(bits, 2)) + seq!['.'] + dec_text(v4_octet(bits, 3))
}

/// The number of zero groups in a row from group `i` on.
pub open spec fn zero_run(bits: u128, i: nat) -> nat
    decreases 8 - i,
{
    if i >= 8 || v6_group(bits, i) != 0 {
        0
    } else {
        1 + zero_run(bits, i + 1)
    }
}

/// The longest run of zero groups that starts at group `i` or later.
pub open spec fn longest_zero_run(bits: u128, i: nat) -> nat
    decreases 8 - i,
{
    if i >= 8 {
        0
    } else if zero_run(bits, i) >= longest_zero_run(bits, i + 1) {
        zero_run(bits, i)
    } else {
        longest_zero_run(bits, i + 1)
    }
}

/// The first group at `i` or later where a run of `len` zero groups starts.
pub open spec fn first_run_of(bits: u128, i: nat, len: nat) -> nat
    decreases 8 - i,
{
    if i >= 8 {
        8
    } else if zero_run(bits, i) == len {
        i
    } else {
        first_run_of(bits, i + 1, len)
    }
}

/// Groups `from..to` in hexadecimal, separated by colons.
pub open spec fn groups_text(bits: u128, from: nat, to: nat) -> Seq<char>
    decreases to - from,
{
    if from >= to {
        Seq::empty()
    } else if from + 1 == to {
        hex_text(v6_group(bits, from))
    } else {
        hex_text(v6_group(bits, from)) + seq![':'] + groups_text(bits, from + 1, to)
    }
}

/// Whether an IPv6 address is an IPv4 address mapped as `::ffff:a.b.c.d`.
pub open spec fn is_v4_mapped(bits: u128) -> bool {
    (bits as nat) / 4294967296 == 65535
}

/// Text of an IPv6 address: a mapped IPv4 address as `::ffff:a.b.c.d`; otherwise
/// the groups in hexadecimal, with the longest run of two or more zero groups
/// (the first, among equally long ones) written as `::`.
pub open spec fn v6_text(bits: u128) -> Seq<char> {
    if is_v4_mapped(bits) {
        "::ffff:"@ + v4_text(((bits as nat) % 4294967296) as u32)
    } else {
        let len = longest_zero_run(bits, 0);
        if len > 1 {
            let start = first_run_of(bits, 0, len);
            groups_text(bits, 0, start) + "::"@ + groups_text(bits, start + len, 8)
        } else {
            groups_text(bits, 0, 8)
        }
    }
}

impl SocketAddress {
    /// Text of the address: `a.b.c.d:port`, or `[ipv6]:port` with `%scope` after
    /// the IPv6 address where the scope id is not zero.
    pub open spec fn text(self) -> Seq<char> {
        match self {
            SocketAddress::V4 { ip, port } => v4_text(ip) + seq![':'] + dec_text(port as nat),
            SocketAddress::V6 { ip, port, scope_id, .. } => seq!['['] + v6_text(ip) + (if scope_id
                == 0 {
                Seq::empty()
            } else {
                seq!['%'] + dec_text(scope_id as nat)
            }) + seq![']', ':'] + dec_text(port as nat),
        }
    }

    /// Appends the text of this address.
    pub fn push_text(&self, s: &mut String)
        ensures
            final(s)@ == old(s)@ + self.text(),
    {
        let ghost s0 = s@;
        proof {
            reveal_strlit("[");
            reveal_strlit("%");
            reveal_strlit("]:");
            reveal_strlit(":");
        }
        match *self {
            SocketAddress::V4 { ip, port } => {
                push_v4(s, ip);
                s.append(":");
                push_dec(s, port as u64);
                assert(s@ =~= s0 + self.text());
            },
            SocketAddress::V6 { ip, port, scope_id, .. } => {
                s.append("[");
                push_v6(s, ip);
                let ghost s1 = s@;
                if scope_id != 0 {
                    s.append("%");
                    push_dec(s, scope_id as u64);
                }
                assert(s@ =~= s1 + (if scope_id == 0 {
                    Seq::empty()
                } else {
                    seq!['%'] + dec_text(scope_id as nat)
                }));
                s.append("]:");
                push_dec(s, port as u64);
                assert(s@ =~= s0 + self.text());
            },
        }
    }
}

fn push_v4(s: &mut String, bits: u32)
    ensures
        final(s)@ == old(s)@ + v4_text(bits),
{
    let ghost s0 = s@;
    push_dec(s, (bits / 16777216) as u64);
    s.append(".");
    push_dec(s, ((bits / 65536) % 256) as u64);
    s.append(".");
    push_dec(s, ((bits / 256) % 256) as u64);
    s.append(".");
    push_dec(s, (bits % 256) as u64);
    proof {
        reveal_strlit(".");
        assert((bits as nat) / pow256(3) % 256 == (bits / 16777216) as nat);
    }
    assert(s@ =~= s0 + v4_text(bits));
}

fn group_divisor_exec(i: usize) -> (r: u128)
    requires
        i < 8,
    ensures
        r as nat == group_divisor(i as nat),
        r > 0,
{
    if i == 0 {
        5192296858534827628530496329220096
    } else if i == 1 {
        79228162514264337593543950336
    } else if i == 2 {
        1208925819614629174706176
    } else if i == 3 {
        18446744073709551616
    } else if i == 4 {
        281474976710656
    } else if i == 5 {
        4294967296
    } else if i == 6 {
        65536
    } else {
        1
    }
}

fn group(bits: u128, i: usize) -> (r: u64)
    requires
        i < 8,
    ensures
        r as nat == v6_group(bits, i as nat),
{
    let d = group_divisor_exec(i);
    ((bits / d) % 65536) as u64
}

fn zero_run_exec(bits: u128, i: usize) -> (r: usize)
    requires
        i <= 8,
    ensures
        r as nat == zero_run(bits, i as nat),
        r <= 8 - i,
    decreases 8 - i,
{
    if i >= 8 || group(bits, i) != 0 {
        0
    } else {
        1 + zero_run_exec(bits, i + 1)
    }
}

fn longest_zero_run_exec(bits: u128, i: usize) -> (r: usize)
    requires
        i <= 8,
    ensures
        r as nat == longest_zero_run(bits, i as nat),
        r <= 8,
    decreases 8 - i,
{
    if i >= 8 {
        0
    } else {
        let here = zero_run_exec(bits, i);
        let later = longest_zero_run_exec(bits, i + 1);
        if here >= later {
            here
        } else {
            later
        }
    }
}

fn first_run_of_exec(bits: u128, i: usize, len: usize) -> (r: usize)
    requires
        i <= 8,
    ensures
        r as nat == first_run_of(bits, i as nat, len as nat),
        i <= r <= 8,
        r < 8 ==> zero_run(bits, r as nat) == len,
    decreases 8 - i,
{
    if i >= 8 {
        8
    } else if zero_run_exec(bits, i) == len {
        i
    } else {
        first_run_of_exec(bits, i + 1, len)
    }
}

/// Appends groups `from..to` of an IPv6 address, separated by colons.
fn push_groups(s: &mut String, bits: u128, from: usize, to: usize)
    requires
        to <= 8,
    ensures
        final(s)@ == old(s)@ + groups_text(bits, from as nat, to as nat),
    decreases to - from,
{
    if from >= to {
        assert(s@ =~= old(s)@ + groups_text(bits, from as nat, to as nat));
    } else {
        push_hex(s, group(bits, from));
        if from + 1 < to {
            s.append(":");
            push_groups(s, bits, from + 1, to);
            proof {
                reveal_strlit(":");
            }
        }
        assert(s@ =~= old(s)@ + groups_text(bits, from as nat, to as nat));
    }
}

proof fn lemma_zero_run_bound(bits: u128, i: nat)
    ensures
        i + zero_run(bits, i) <= 8 || i > 8,
    decreases 8 - i,
{
    if i < 8 && v6_group(bits, i) == 0 {
        lemma_zero_run_bound(bits, i + 1);
    }
}

fn push_v6(s: &mut String, bits: u128)
    ensures
        final(s)@ == old(s)@ + v6_text(bits),
{
    let ghost s0 = s@;
    if bits / 4294967296 == 65535 {
        s.append("::ffff:");
        push_v4(s, (bits % 4294967296) as u32);
        proof {
            reveal_strlit("::ffff:");
        }
        assert(s@ =~= s0 + v6_text(bits));
    } else {
        let len = longest_zero_run_exec(bits, 0);
        if len > 1 {
            let start = first_run_of_exec(bits, 0, len);
            if start < 8 {
                proof {
                    lemma_zero_run_bound(bits, start as nat);
                }
                push_groups(s, bits, 0, start);
                s.append("::");
                push_groups(s, bits, start + len, 8);
                proof {
                    reveal_strlit("::");
                }
                assert(s@ =~= s0 + v6_text(bits));
            } else {
                proof {
                    lemma_longest_run_found(bits, 0);
                }
            }
        } else {
            push_groups(s, bits, 0, 8);
            assert(s@ =~= s0 + v6_text(bits));
        }
    }
}

/// A longest run that is not empty starts somewhere.
proof fn lemma_longest_run_found(bits: u128, i: nat)
    requires
        i <= 8,
        longest_zero_run(bits, i) > 0,
    ensures
        first_run_of(bits, i, longest_zero_run(bits, i)) < 8,
    decreases 8 - i,
{
    if i < 8 && zero_run(bits, i) != longest_zero_run(bits, i) {
        lemma_longest_run_found(bits, i + 1);
    }
}

} // verus!
