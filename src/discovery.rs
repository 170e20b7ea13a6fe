//! The reply to the local-network discovery broadcast: a NUL-terminated,
//! comma-separated list of the inverter's IP address, serial number and WiFi
//! network name.
use vstd::prelude::*;
use vstd::utf8::{decode_utf8, valid_utf8};

use crate::identify::{copy_range, utf8_text};

verus! {

/// The datagram that asks inverters on the local network to announce
/// themselves.
pub fn discovery_request() -> (r: &'static str)
    ensures
        r@ == "WIFIKIT-214028-READ"@,
{
    "WIFIKIT-214028-READ"
}

/// The bytes before the first NUL byte, or all of them when there is none.
pub open spec fn before_nul(b: Seq<u8>) -> Seq<u8>
    decreases b.len(),
{
    if b.len() == 0 {
        b
    } else if before_nul(b.drop_last()).len() < b.len() - 1 {
        before_nul(b.drop_last())
    } else if b.last() == 0 {
        b.drop_last()
    } else {
        b
    }
}

/// The pieces of `s` between commas; a string without commas is one piece.
pub open spec fn split_commas(s: Seq<u8>) -> Seq<Seq<u8>>
    decreases s.len(),
{
    if s.len() == 0 {
        seq![Seq::empty()]
    } else {
        let p = split_commas(s.drop_last());
        if s.last() == 0x2c {
            p.push(Seq::empty())
        } else {
            p.update(p.len() - 1, p.last().push(s.last()))
        }
    }
}

/// The comma-separated fields of `s`, where a comma ends a field: an empty
/// last piece is not a field.
pub open spec fn fields(s: Seq<u8>) -> Seq<Seq<u8>> {
    let p = split_commas(s);
    if p.last().len() == 0 {
        p.drop_last()
    } else {
        p
    }
}

/// What a discovery reply announces.
pub struct DiscoveredInverter {
    pub ip_address: String,
    pub serial_number: String,
    pub wifi_name: String,
}

proof fn lemma_split_commas_nonempty(s: Seq<u8>)
    ensures
        split_commas(s).len() >= 1,
    decreases s.len(),
{
    if s.len() > 0 {
        lemma_split_commas_nonempty(s.drop_last());
    }
}

/// Reads a discovery reply: the text before the first NUL byte, split into
/// fields at commas. `None` when there are fewer than three fields or one of
/// the first three is not UTF-8 text.
pub fn parse_discovery_reply(buf: &[u8]) -> (r: Option<DiscoveredInverter>)
    ensures
        ({
            let f = fields(before_nul(buf@));
            match r {
                Some(d) => f.len() >= 3 && valid_utf8(f[0]) && valid_utf8(f[1]) && valid_utf8(f[2])
                    && d.ip_address@ == decode_utf8(f[0]) && d.serial_number@ == decode_utf8(f[1])
                    && d.wifi_name@ == decode_utf8(f[2]),
                None => f.len() < 3 || !valid_utf8(f[0]) || !valid_utf8(f[1]) || !valid_utf8(f[2]),
            }
        }),
{
    let n = buf.len();
    let mut end: usize = 0;
    while end < n && buf[end] != 0
        invariant
            end <= n,
            n == buf@.len(),
            before_nul(buf@.take(end as int)) == buf@.take(end as int),
        decreases n - end,
    {
        assert(buf@.take(end + 1).drop_last() =~= buf@.take(end as int));
        end = end + 1;
    }
    let ghost text = buf@.take(end as int);
    assert(before_nul(buf@) == text) by {
        if end < n {
            assert(buf@.take(end + 1).drop_last() =~= text);
            assert(before_nul(buf@.take(end + 1)) == text);
            lemma_before_nul_extends(buf@, end as int + 1);
        } else {
            assert(buf@.take(n as int) =~= buf@);
        }
    }
    // start of each field, and of the piece after the last comma
    let mut starts: Vec<usize> = vec![0];
    let mut stops: Vec<usize> = Vec::new();
    let mut i: usize = 0;
    while i < end
        invariant
            i <= end <= n,
            n == buf@.len(),
            text == buf@.take(end as int),
            starts@.len() == stops@.len() + 1,
            starts@.len() == split_commas(text.take(i as int)).len(),
            starts@.last() <= i,
            forall|k: int| 0 <= k < stops@.len() ==> #[trigger] starts@[k] <= stops@[k],
            forall|k: int| 0 <= k < stops@.len() ==> #[trigger] stops@[k] < i,
            forall|k: int|
                0 <= k < stops@.len() ==> #[trigger] split_commas(text.take(i as int))[k] == text.subrange(
                    starts@[k] as int,
                    stops@[k] as int,
                ),
            split_commas(text.take(i as int)).last() == text.subrange(starts@.last() as int, i as int),
        decreases end - i,
    {
        let ghost prev = split_commas(text.take(i as int));
        assert(text.take(i + 1).drop_last() =~= text.take(i as int));
        assert(text.take(i + 1).last() == buf@[i as int]);
        if buf[i] == 0x2c {
            let ghost last_start = starts@.last();
            let ghost old_starts = starts@;
            let ghost old_stops = stops@;
            stops.push(i);
            starts.push(i + 1);
            assert(text.subrange(i + 1, i + 1) =~= Seq::<u8>::empty());
            assert forall|k: int| 0 <= k < stops@.len() implies #[trigger] starts@[k] <= stops@[k] by {
                if k < old_stops.len() {
                    assert(starts@[k] == old_starts[k] && stops@[k] == old_stops[k]);
                } else {
                    assert(starts@[k] == last_start);
                }
            }
        } else {
            assert(text.subrange(starts@.last() as int, i + 1) =~= text.subrange(starts@.last() as int, i as int).push(buf@[i as int]));
        }
        i = i + 1;
    }
    assert(text.take(end as int) =~= text);
    let ghost pieces = split_commas(text);
    let count: usize = if starts[starts.len() - 1] == end {
        starts.len() - 1
    } else {
        starts.len()
    };
    assert(fields(text).len() == count);
    if count < 3 {
        return None;
    }
    let ghost f = fields(text);
    assert(f[0] == pieces[0] && f[1] == pieces[1] && f[2] == pieces[2]);
    let third_stop: usize = if stops.len() > 2 {
        stops[2]
    } else {
        end
    };
    let ip = utf8_text(copy_range(buf, starts[0], stops[0]));
    let serial = utf8_text(copy_range(buf, starts[1], stops[1]));
    let wifi = utf8_text(copy_range(buf, starts[2], third_stop));
    assert(buf@.subrange(starts@[0] as int, stops@[0] as int) =~= text.subrange(starts@[0] as int, stops@[0] as int));
    assert(buf@.subrange(starts@[1] as int, stops@[1] as int) =~= text.subrange(starts@[1] as int, stops@[1] as int));
    assert(buf@.subrange(starts@[2] as int, third_stop as int) =~= text.subrange(starts@[2] as int, third_stop as int));
    match (ip, serial, wifi) {
        (Some(ip_address), Some(serial_number), Some(wifi_name)) => Some(
            DiscoveredInverter { ip_address, serial_number, wifi_name },
        ),
        _ => None,
    }
}

/// Once a NUL byte has been seen, more bytes do not change the text before it.
proof fn lemma_before_nul_extends(b: Seq<u8>, k: int)
    requires
        0 < k <= b.len(),
        before_nul(b.take(k)).len() < k,
    ensures
        before_nul(b) == before_nul(b.take(k)),
    decreases b.len() - k,
{
    if k < b.len() {
        assert(b.take(k + 1).drop_last() =~= b.take(k));
        lemma_before_nul_extends(b, k + 1);
    } else {
        assert(b.take(k) =~= b);
    }
}

} // verus!
