//! Endpoint authority parsing: a target endpoint is a host/port identity in
//! authority form, `host[:port]`, with the transport's default port 443 when
//! no port is given.  The port is one to five decimal digits valued at most
//! 65535; the split is at the last colon, so a host may itself contain
//! colons only when a port is present after the final one.
use vstd::prelude::*;

verus! {

/// A resolved authority: the host to hand to address resolution and server
/// name indication, and the port.
pub struct Authority {
    pub host: Vec<u8>,
    pub port: u16,
}

/// An ASCII decimal digit.
pub open spec fn is_digit(b: u8) -> bool {
    48 <= b <= 57
}

/// Every byte is a decimal digit.
pub open spec fn all_digits(s: Seq<u8>) -> bool {
    forall|i: int| 0 <= i < s.len() ==> is_digit(#[trigger] s[i])
}

/// The number the digit string denotes.
pub open spec fn digits_val(s: Seq<u8>) -> int
    recommends
        all_digits(s),
    decreases s.len(),
{
    if s.len() == 0 {
        0
    } else {
        digits_val(s.drop_last()) * 10 + (s.last() - 48)
    }
}

/// A well-formed port: one to five digits, valued at most 65535.
pub open spec fn valid_port(s: Seq<u8>) -> bool {
    &&& 1 <= s.len() <= 5
    &&& all_digits(s)
    &&& digits_val(s) <= 65535
}

/// The index of the last colon, or -1 when there is none.
pub open spec fn last_colon(s: Seq<u8>) -> int
    decreases s.len(),
{
    if s.len() == 0 {
        -1
    } else if s.last() == 58 {
        s.len() - 1
    } else {
        last_colon(s.drop_last())
    }
}

/// What parsing an endpoint yields: the host and port when the endpoint is
/// well formed, nothing otherwise.
pub open spec fn spec_authority(s: Seq<u8>) -> Option<(Seq<u8>, u16)> {
    let c = last_colon(s);
    if c < 0 {
        if s.len() > 0 {
            Some((s, 443u16))
        } else {
            None
        }
    } else {
        let host = s.subrange(0, c);
        let port = s.subrange(c + 1, s.len() as int);
        if host.len() > 0 && valid_port(port) {
            Some((host, digits_val(port) as u16))
        } else {
            None
        }
    }
}

/// Find the index of the last colon, if any.
fn find_last_colon(s: &Vec<u8>) -> (r: Option<usize>)
    ensures
        match r {
            Some(i) => i == last_colon(s@) && 0 <= i < s@.len(),
            None => last_colon(s@) < 0,
        },
{
    let mut j: usize = s.len();
    proof {
        assert(s@.subrange(0, j as int) =~= s@);
    }
    while j > 0
        invariant
            j <= s@.len(),
            last_colon(s@) == last_colon(s@.subrange(0, j as int)),
        decreases j,
    {
        if s[j - 1] == 58 {
            proof {
                let pre = s@.subrange(0, j as int);
                assert(pre.last() == 58);
                assert(last_colon(pre) == j - 1);
            }
            return Some(j - 1);
        }
        proof {
            let pre = s@.subrange(0, j as int);
            assert(pre.last() != 58);
            assert(pre.drop_last() =~= s@.subrange(0, j - 1));
        }
        j = j - 1;
    }
    proof {
        assert(s@.subrange(0, 0) =~= Seq::<u8>::empty());
    }
    None
}

/// The largest value `n` digits can denote, for the digit counts a port can
/// have.
spec fn digits_cap(n: int) -> int {
    if n <= 0 {
        0
    } else if n == 1 {
        9
    } else if n == 2 {
        99
    } else if n == 3 {
        999
    } else if n == 4 {
        9999
    } else {
        99999
    }
}

/// Parse the digits `s[from..to]` as a number, unbounded by machine limits
/// only because the caller bounds the digit count.
fn parse_digits(s: &Vec<u8>, from: usize, to: usize) -> (r: Option<u32>)
    requires
        from <= to <= s@.len(),
        to - from <= 5,
    ensures
        match r {
            Some(v) => all_digits(s@.subrange(from as int, to as int)) && v == digits_val(
                s@.subrange(from as int, to as int),
            ),
            None => !all_digits(s@.subrange(from as int, to as int)),
        },
{
    let mut v: u32 = 0;
    let mut k: usize = from;
    proof {
        assert(s@.subrange(from as int, from as int) =~= Seq::<u8>::empty());
    }
    while k < to
        invariant
            from <= k <= to <= s@.len(),
            to - from <= 5,
            all_digits(s@.subrange(from as int, k as int)),
            v == digits_val(s@.subrange(from as int, k as int)),
            v <= digits_cap(k - from),
        decreases to - k,
    {
        let b = s[k];
        if b < 48 || b > 57 {
            proof {
                assert(s@.subrange(from as int, to as int)[k - from] == s@[k as int]);
            }
            return None;
        }
        proof {
            let cur = s@.subrange(from as int, k + 1);
            assert(cur.drop_last() =~= s@.subrange(from as int, k as int));
            assert(cur.last() == s@[k as int]);
        }
        v = v * 10 + (b - 48) as u32;
        k = k + 1;
    }
    Some(v)
}

/// Copy the bytes `s[from..to]`.
fn copy_range(s: &Vec<u8>, from: usize, to: usize) -> (r: Vec<u8>)
    requires
        from <= to <= s@.len(),
    ensures
        r@ == s@.subrange(from as int, to as int),
{
    let mut r: Vec<u8> = Vec::new();
    let mut k: usize = from;
    proof {
        assert(r@ =~= s@.subrange(from as int, from as int));
    }
    while k < to
        invariant
            from <= k <= to <= s@.len(),
            r@ == s@.subrange(from as int, k as int),
        decreases to - k,
    {
        r.push(s[k]);
        proof {
            assert(s@.subrange(from as int, k as int) + seq![s@[k as int]] =~= s@.subrange(
                from as int,
                k + 1,
            ));
        }
        k = k + 1;
    }
    r
}

/// Parse an endpoint in authority form.  Returns the host and port exactly
/// when the endpoint is well formed: a nonempty host, and either no port
/// (443 is used) or a port of one to five digits valued at most 65535 after
/// the last colon.
pub fn parse_authority(s: &Vec<u8>) -> (r: Option<Authority>)
    ensures
        match r {
            Some(a) => spec_authority(s@) == Some((a.host@, a.port)),
            None => spec_authority(s@) is None,
        },
{
    match find_last_colon(s) {
        None => {
            if s.len() > 0 {
                let host = copy_range(s, 0, s.len());
                proof {
                    assert(s@.subrange(0, s@.len() as int) =~= s@);
                }
                Some(Authority { host, port: 443 })
            } else {
                None
            }
        },
        Some(c) => {
            let len = s.len();
            if c == 0 {
                // empty host
                return None;
            }
            let port_len = len - (c + 1);
            if port_len < 1 || port_len > 5 {
                proof {
                    let port = s@.subrange(c + 1, len as int);
                    assert(!valid_port(port));
                }
                return None;
            }
            match parse_digits(s, c + 1, len) {
                None => None,
                Some(v) => {
                    if v <= 65535 {
                        let host = copy_range(s, 0, c);
                        Some(Authority { host, port: v as u16 })
                    } else {
                        None
                    }
                },
            }
        },
    }
}

} // verus!
