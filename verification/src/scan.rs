//! Scan results and the rule that picks the network to join.

use vstd::prelude::*;

verus! {

/// Authentication scheme reported for a network or demanded of one.
#[derive(Clone, Copy, PartialEq, Eq, Structural, Debug)]
pub enum AuthMethod {
    Open,
    Wep,
    Wpa,
    Wpa2Personal,
    WpaWpa2Personal,
    Wpa2Enterprise,
    Wpa3Personal,
    Wpa2Wpa3Personal,
}

/// One entry of a scan result: a network the radio heard.
pub struct ScanEntry {
    pub ssid: String,
    pub auth_method: AuthMethod,
    pub signal_strength: i8,
}

/// Highest number of entries one scan may hand back.
pub const SCAN_CAPACITY: usize = 8;

/// A bounded scan result list: at most `SCAN_CAPACITY` entries, in the
/// order the radio reported them. Entries past the capacity are dropped.
pub struct ScanList {
    entries: Vec<ScanEntry>,
}

impl ScanList {
    pub closed spec fn view(self) -> Seq<ScanEntry> {
        self.entries@
    }

    /// A list is well formed when it respects the fixed capacity.
    pub open spec fn wf(self) -> bool {
        self@.len() <= SCAN_CAPACITY
    }

    pub fn new() -> (r: ScanList)
        ensures
            r.wf(),
            r@ == Seq::<ScanEntry>::empty(),
    {
        ScanList { entries: Vec::new() }
    }

    /// Append an entry if there is room; drop it otherwise.
    pub fn push(&mut self, entry: ScanEntry)
        requires
            old(self).wf(),
        ensures
            final(self).wf(),
            old(self)@.len() < SCAN_CAPACITY ==> final(self)@ == old(self)@.push(entry),
            old(self)@.len() >= SCAN_CAPACITY ==> final(self)@ == old(self)@,
    {
        if self.entries.len() < SCAN_CAPACITY {
            self.entries.push(entry);
        }
    }

    pub fn len(&self) -> (n: usize)
        ensures
            n == self@.len(),
    {
        self.entries.len()
    }

    pub fn get(&self, i: usize) -> (e: &ScanEntry)
        requires
            i < self@.len(),
        ensures
            *e == self@[i as int],
    {
        &self.entries[i]
    }

    /// The first entry, in scan order, whose SSID equals the desired SSID
    /// exactly; `None` when no entry matches. Case-sensitive, whole-string
    /// equality, no tie-break on signal strength.
    pub fn select_network(&self, desired: &String) -> (r: Option<usize>)
        ensures
            match r {
                Some(i) => {
                    &&& i < self@.len()
                    &&& self@[i as int].ssid@ == desired@
                    &&& forall|j: int| 0 <= j < i ==> self@[j].ssid@ != desired@
                },
                None => forall|j: int| 0 <= j < self@.len() ==> self@[j].ssid@ != desired@,
            },
    {
        let n = self.entries.len();
        let mut i: usize = 0;
        while i < n
            invariant
                n == self@.len(),
                i <= n,
                forall|j: int| 0 <= j < i ==> self@[j].ssid@ != desired@,
            decreases n - i,
        {
            if self.entries[i].ssid.eq(desired) {
                return Some(i);
            }
            i = i + 1;
        }
        None
    }
}

/// Render a signal strength (dBm, zero or negative in practice) as a fixed
/// four-column bar gauge: stronger signals show more bars. Inputs of 30 dBm
/// and above are outside the gauge's range.
pub fn gui_signal_strength(signal_strength: i8) -> (r: &'static str)
    requires
        signal_strength < 30,
    ensures
        signal_strength >= -29 ==> r@ == "\u{2581}\u{2583}\u{2585}\u{2587}"@,
        -59 <= signal_strength < -29 ==> r@ == "\u{2581}\u{2583}\u{2585} "@,
        -89 <= signal_strength < -59 ==> r@ == "\u{2581}\u{2583}  "@,
        -119 <= signal_strength < -89 ==> r@ == "\u{2581}   "@,
        signal_strength < -119 ==> r@ == "    "@,
{
    if signal_strength >= -29 {
        "\u{2581}\u{2583}\u{2585}\u{2587}"
    } else if signal_strength >= -59 {
        "\u{2581}\u{2583}\u{2585} "
    } else if signal_strength >= -89 {
        "\u{2581}\u{2583}  "
    } else if signal_strength >= -119 {
        "\u{2581}   "
    } else {
        "    "
    }
}

} // verus!
