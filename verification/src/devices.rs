//! Device selections.
//!
//! An input or output device is referred to by name; the reserved name
//! `"default"` means the host's default device for that direction and
//! is resolved by the caller at use time, never cached.  The
//! capability queries take the configuration ranges the device
//! advertises, as the caller read them from the host audio subsystem,
//! and compute the supported channel counts and the supported rates
//! among the well-known candidates.

use vstd::prelude::*;

use crate::config::SupportedConfigRange;

verus! {

/// The fixed set of well-known sample-rate candidates, ascending.
pub open spec fn spec_well_known_rates() -> Seq<u32> {
    seq![16000u32, 32000u32, 44100u32, 48000u32, 88200u32, 96000u32]
}

/// Whether some advertised range covers this rate.
pub open spec fn rate_supported(configs: Seq<SupportedConfigRange>, rate: u32) -> bool {
    exists|i: int|
        0 <= i < configs.len() && (#[trigger] configs[i]).min_sample_rate <= rate
            <= configs[i].max_sample_rate
}

/// The candidates of `cands`, in order, that some advertised range
/// covers.
pub open spec fn rates_from(cands: Seq<u32>, configs: Seq<SupportedConfigRange>) -> Seq<u32>
    decreases cands.len(),
{
    if cands.len() == 0 {
        Seq::<u32>::empty()
    } else {
        let rest = rates_from(cands.drop_last(), configs);
        if rate_supported(configs, cands.last()) {
            rest.push(cands.last())
        } else {
            rest
        }
    }
}

/// The well-known rates the device supports, ascending, deduplicated.
pub open spec fn spec_supported_rates(configs: Seq<SupportedConfigRange>) -> Seq<u32> {
    rates_from(spec_well_known_rates(), configs)
}

/// Strictly ascending, hence free of duplicates.
pub open spec fn strictly_ascending(s: Seq<u16>) -> bool {
    forall|a: int, b: int| 0 <= a < b < s.len() ==> s[a] < s[b]
}

/// Whether some advertised range covers `rate`, decided executably.
fn rate_supported_exec(configs: &Vec<SupportedConfigRange>, rate: u32) -> (r: bool)
    ensures
        r == rate_supported(configs@, rate),
{
    let n = configs.len();
    let mut i: usize = 0;
    while i < n
        invariant
            0 <= i <= n,
            n == configs@.len(),
            forall|j: int|
                0 <= j < i ==> !((#[trigger] configs@[j]).min_sample_rate <= rate
                    <= configs@[j].max_sample_rate),
        decreases n - i,
    {
        let c = configs[i];
        if c.min_sample_rate <= rate && rate <= c.max_sample_rate {
            return true;
        }
        i = i + 1;
    }
    false
}

/// An output device selection.
#[derive(Clone, Debug, PartialEq, Eq)]
pub struct AudioOutput {
    /// The device name; `"default"` stands for the host default.
    pub output_device_name: String,
}

impl AudioOutput {
    /// A selection of the host's default output device.
    pub fn new() -> (r: AudioOutput)
        ensures
            r.output_device_name@ == "default"@,
    {
        AudioOutput { output_device_name: String::from_str("default") }
    }

    pub fn set_device_name(&mut self, name: String)
        ensures
            final(self).output_device_name == name,
    {
        self.output_device_name = name;
    }

    pub fn device_name(&self) -> (r: &str)
        ensures
            r@ == self.output_device_name@,
    {
        self.output_device_name.as_str()
    }
}

/// An input device selection: the device name and the desired sample
/// rate and channel count a recording should be negotiated at.
#[derive(Clone, Debug, PartialEq, Eq)]
pub struct AudioInput {
    /// The device name; `"default"` stands for the host default.
    pub input_device_name: String,
    pub sample_rate: u32,
    pub channels: u16,
}

impl AudioInput {
    /// A selection of the host's default input device, at the most
    /// common well-known rate, mono.
    pub fn new() -> (r: AudioInput)
        ensures
            r.input_device_name@ == "default"@,
            r.sample_rate == 44100,
            r.channels == 1,
    {
        AudioInput { input_device_name: String::from_str("default"), sample_rate: 44100, channels: 1 }
    }

    pub fn set_device_name(&mut self, name: String)
        ensures
            final(self).input_device_name == name,
            final(self).sample_rate == old(self).sample_rate,
            final(self).channels == old(self).channels,
    {
        self.input_device_name = name;
    }

    pub fn device_name(&self) -> (r: &str)
        ensures
            r@ == self.input_device_name@,
    {
        self.input_device_name.as_str()
    }

    pub fn set_sample_rate(&mut self, sample_rate: u32)
        ensures
            final(self).sample_rate == sample_rate,
            final(self).input_device_name == old(self).input_device_name,
            final(self).channels == old(self).channels,
    {
        self.sample_rate = sample_rate;
    }

    pub fn sample_rate(&self) -> (r: u32)
        ensures
            r == self.sample_rate,
    {
        self.sample_rate
    }

    pub fn set_channels(&mut self, channels: u16)
        ensures
            final(self).channels == channels,
            final(self).input_device_name == old(self).input_device_name,
            final(self).sample_rate == old(self).sample_rate,
    {
        self.channels = channels;
    }

    pub fn channel(&self) -> (r: u16)
        ensures
            r == self.channels,
    {
        self.channels
    }

    /// The well-known sample rates that the advertised configuration
    /// ranges of the selected device cover: ascending, deduplicated.
    pub fn sample_rates(&self, configs: &Vec<SupportedConfigRange>) -> (r: Vec<u32>)
        ensures
            r@ == spec_supported_rates(configs@),
            forall|j: int| 0 <= j < r@.len() ==> rate_supported(configs@, r@[j]),
    {
        let mut found: Vec<u32> = Vec::new();
        let ghost wk = spec_well_known_rates();
        assert(found@ =~= rates_from(wk.take(0), configs@));
        if rate_supported_exec(configs, 16000) {
            found.push(16000);
        }
        proof {
            assert(wk.take(1).drop_last() =~= wk.take(0));
            assert(found@ =~= rates_from(wk.take(1), configs@));
        }
        if rate_supported_exec(configs, 32000) {
            found.push(32000);
        }
        proof {
            assert(wk.take(2).drop_last() =~= wk.take(1));
            assert(found@ =~= rates_from(wk.take(2), configs@));
        }
        if rate_supported_exec(configs, 44100) {
            found.push(44100);
        }
        proof {
            assert(wk.take(3).drop_last() =~= wk.take(2));
            assert(found@ =~= rates_from(wk.take(3), configs@));
        }
        if rate_supported_exec(configs, 48000) {
            found.push(48000);
        }
        proof {
            assert(wk.take(4).drop_last() =~= wk.take(3));
            assert(found@ =~= rates_from(wk.take(4), configs@));
        }
        if rate_supported_exec(configs, 88200) {
            found.push(88200);
        }
        proof {
            assert(wk.take(5).drop_last() =~= wk.take(4));
            assert(found@ =~= rates_from(wk.take(5), configs@));
        }
        if rate_supported_exec(configs, 96000) {
            found.push(96000);
        }
        proof {
            assert(wk.take(6).drop_last() =~= wk.take(5));
            assert(found@ =~= rates_from(wk.take(6), configs@));
            assert(wk.take(6) =~= wk);
            lemma_rates_from_supported(wk, configs@);
        }
        found
    }

    /// The channel counts the advertised configuration ranges offer:
    /// ascending, deduplicated.
    pub fn channels(&self, configs: &Vec<SupportedConfigRange>) -> (r: Vec<u16>)
        ensures
            strictly_ascending(r@),
            forall|c: u16| #[trigger]
                r@.contains(c) <==> exists|i: int|
                    0 <= i < configs@.len() && (#[trigger] configs@[i]).channels == c,
    {
        let mut out: Vec<u16> = Vec::new();
        let n = configs.len();
        let mut i: usize = 0;
        while i < n
            invariant
                0 <= i <= n,
                n == configs@.len(),
                strictly_ascending(out@),
                forall|c: u16| #[trigger]
                    out@.contains(c) <==> exists|j: int|
                        0 <= j < i && (#[trigger] configs@[j]).channels == c,
            decreases n - i,
        {
            let c = configs[i].channels;
            insert_unique_sorted(&mut out, c);
            proof {
                assert(configs@[i as int].channels == c);
                assert forall|y: u16| #[trigger] out@.contains(y) implies exists|j: int|
                    0 <= j < i + 1 && (#[trigger] configs@[j]).channels == y by {
                    if y == c {
                        assert(configs@[i as int].channels == y);
                    }
                }
            }
            i = i + 1;
        }
        out
    }
}

/// Inserts `x` into a strictly ascending vector, keeping it strictly
/// ascending; a value already present is left alone.
fn insert_unique_sorted(v: &mut Vec<u16>, x: u16)
    requires
        strictly_ascending(old(v)@),
    ensures
        strictly_ascending(final(v)@),
        forall|y: u16| #[trigger] final(v)@.contains(y) <==> old(v)@.contains(y) || y == x,
{
    let n = v.len();
    let mut i: usize = 0;
    while i < n && v[i] < x
        invariant
            0 <= i <= n,
            n == v@.len(),
            strictly_ascending(v@),
            v == old(v),
            forall|j: int| 0 <= j < i ==> v@[j] < x,
        decreases n - i,
    {
        i = i + 1;
    }
    if i < n && v[i] == x {
        proof {
            assert(v@.contains(x));
        }
        return ;
    }
    proof {
        assert(forall|j: int| i <= j < v@.len() ==> v@[j] > x);
    }
    v.insert(i, x);
    proof {
        let new = v@;
        let prior = old(v)@;
        assert(new == prior.insert(i as int, x));
        assert(forall|j: int| 0 <= j < i ==> new[j] == prior[j]);
        assert(new[i as int] == x);
        assert(forall|j: int| i < j < new.len() ==> new[j] == prior[j - 1]);
        assert forall|a: int, b: int| 0 <= a < b < new.len() implies new[a] < new[b] by {}
        assert forall|y: u16| #[trigger] new.contains(y) implies prior.contains(y) || y == x by {
            let k = choose|k: int| 0 <= k < new.len() && new[k] == y;
            if k < i {
                assert(prior[k] == y);
            } else if k > i {
                assert(prior[k - 1] == y);
            }
        }
        assert forall|y: u16| prior.contains(y) implies #[trigger] new.contains(y) by {
            let k = choose|k: int| 0 <= k < prior.len() && prior[k] == y;
            if k < i {
                assert(new[k] == y);
            } else {
                assert(new[k + 1] == y);
            }
        }
        assert(new[i as int] == x);
        assert(new.contains(x));
    }
}

proof fn lemma_rates_from_supported(cands: Seq<u32>, configs: Seq<SupportedConfigRange>)
    ensures
        forall|j: int|
            0 <= j < rates_from(cands, configs).len() ==> rate_supported(
                configs,
                rates_from(cands, configs)[j],
            ),
    decreases cands.len(),
{
    if cands.len() > 0 {
        lemma_rates_from_supported(cands.drop_last(), configs);
        let rest = rates_from(cands.drop_last(), configs);
        let all = rates_from(cands, configs);
        assert forall|j: int| 0 <= j < all.len() implies rate_supported(configs, all[j]) by {
            if rate_supported(configs, cands.last()) {
                assert(all == rest.push(cands.last()));
                if j < rest.len() {
                    assert(all[j] == rest[j]);
                } else {
                    assert(all[j] == cands.last());
                }
            } else {
                assert(all == rest);
            }
        }
    }
}


/// Picks a device by name from the names the host enumerated: the
/// first exact match wins.  `None` means the name is absent, and the
/// caller decides whether to fall back to the host default — the
/// output path does, the input path reports the device unavailable.
pub fn find_device_index(names: &Vec<String>, desired: &String) -> (r: Option<usize>)
    ensures
        match r {
            Some(i) => i < names@.len() && names@[i as int]@ == desired@ && forall|j: int|
                0 <= j < i ==> names@[j]@ != desired@,
            None => forall|j: int| 0 <= j < names@.len() ==> names@[j]@ != desired@,
        },
{
    let n = names.len();
    let mut i: usize = 0;
    while i < n
        invariant
            0 <= i <= n,
            n == names@.len(),
            forall|j: int| 0 <= j < i ==> names@[j]@ != desired@,
        decreases n - i,
    {
        if names[i] == *desired {
            return Some(i);
        }
        i = i + 1;
    }
    None
}

} // verus!
