//! What the host reports about the device, and the quality tier derived from it.

use vstd::prelude::*;
use vstd::string::StrSliceExecFns;

verus! {

/// Highest quality level the governor may select.
pub const MAX_QUALITY: u8 = 2;

/// Device description supplied by the host.
#[derive(Clone, Copy, Debug, PartialEq, Eq, Structural)]
pub struct BrowserInfo {
    pub is_mobile: bool,
    pub is_low_end: bool,
    pub supports_webgl2: bool,
    pub hardware_acceleration: bool,
    pub cpu_cores: u32,
    /// 0 = low, 1 = medium, 2 = high.
    pub performance_tier: u8,
}

/// `word` stands in `text` from position `i` on.
pub open spec fn occurs_at(text: Seq<char>, word: Seq<char>, i: int) -> bool {
    0 <= i && i + word.len() <= text.len() && text.subrange(i, i + word.len()) == word
}

/// `word` stands somewhere in `text`.
pub open spec fn mentions(text: Seq<char>, word: Seq<char>) -> bool {
    exists|i: int| occurs_at(text, word, i)
}

/// Whether a user agent names a mobile platform.
pub open spec fn names_mobile(user_agent: Seq<char>) -> bool {
    mentions(user_agent, "Mobile"@) || mentions(user_agent, "Android"@) || mentions(
        user_agent,
        "iPhone"@,
    )
}

/// The characters of a text, one by one.
fn characters(text: &str) -> (chars: Vec<char>)
    ensures
        chars@ == text@,
{
    let n: usize = text.unicode_len();
    let mut chars: Vec<char> = Vec::new();
    let mut i: usize = 0;
    while i < n
        invariant
            i <= n,
            n == text@.len(),
            chars@ == text@.take(i as int),
        decreases n - i,
    {
        chars.push(text.get_char(i));
        assert(chars@ =~= text@.take(i + 1));
        i = i + 1;
    }
    assert(text@.take(n as int) =~= text@);
    chars
}

/// Whether `word` stands in `text` from position `start` on.
fn matches_at(text: &Vec<char>, word: &Vec<char>, start: usize) -> (found: bool)
    requires
        start + word.len() <= text.len(),
    ensures
        found == occurs_at(text@, word@, start as int),
{
    let mut k: usize = 0;
    while k < word.len()
        invariant
            k <= word.len(),
            start + word.len() <= text.len(),
            forall|j: int| 0 <= j < k ==> text@[start + j] == word@[j],
        decreases word.len() - k,
    {
        if text[start + k] != word[k] {
            proof {
                let part = text@.subrange(start as int, start + word.len());
                assert(part[k as int] == text@[start + k]);
            }
            return false;
        }
        k = k + 1;
    }
    assert(text@.subrange(start as int, start + word.len()) =~= word@);
    true
}

/// Whether `word` stands somewhere in `text`.
pub fn contains_text(text: &str, word: &str) -> (found: bool)
    ensures
        found == mentions(text@, word@),
{
    let text_chars = characters(text);
    let word_chars = characters(word);
    if word_chars.len() > text_chars.len() {
        return false;
    }
    let last: usize = text_chars.len() - word_chars.len();
    let mut i: usize = 0;
    while i < last
        invariant
            i <= last,
            last == text_chars.len() - word_chars.len(),
            text_chars@ == text@,
            word_chars@ == word@,
            forall|j: int| 0 <= j < i ==> !occurs_at(text@, word@, j),
        decreases last - i,
    {
        if matches_at(&text_chars, &word_chars, i) {
            return true;
        }
        i = i + 1;
    }
    matches_at(&text_chars, &word_chars, last)
}

/// Tier of a device with `cpu_cores` cores (already raised to at least one).
pub open spec fn tier_of(is_mobile: bool, cpu_cores: u32) -> u8 {
    if is_mobile || cpu_cores <= 2 {
        0
    } else if cpu_cores <= 4 {
        1
    } else {
        2
    }
}

/// The description `detect` derives from a probe of the device.
pub open spec fn detected(is_mobile: bool, reported_cores: u32) -> BrowserInfo {
    let cores = if reported_cores < 1 { 1u32 } else { reported_cores };
    BrowserInfo {
        is_mobile,
        is_low_end: is_mobile || cores <= 2,
        supports_webgl2: true,
        hardware_acceleration: true,
        cpu_cores: cores,
        performance_tier: tier_of(is_mobile, cores),
    }
}

impl Default for BrowserInfo {
    /// A four-core desktop with WebGL2 and hardware acceleration, the
    /// assumption when nothing was probed.
    fn default() -> (info: Self)
        ensures
            info == (BrowserInfo {
                is_mobile: false,
                is_low_end: false,
                supports_webgl2: true,
                hardware_acceleration: true,
                cpu_cores: 4,
                performance_tier: 2,
            }),
    {
        BrowserInfo {
            is_mobile: false,
            is_low_end: false,
            supports_webgl2: true,
            hardware_acceleration: true,
            cpu_cores: 4,
            performance_tier: 2,
        }
    }
}

impl BrowserInfo {
    /// Classifies a device from its user agent and the number of cores it
    /// reports. A device is mobile where the user agent mentions a mobile
    /// platform; a report of zero cores counts as one.
    pub fn detect(user_agent: &str, reported_cores: u32) -> (info: Self)
        ensures
            info == detected(names_mobile(user_agent@), reported_cores),
            info.performance_tier <= MAX_QUALITY,
            info.cpu_cores >= 1,
    {
        let is_mobile: bool = contains_text(user_agent, "Mobile") || contains_text(
            user_agent,
            "Android",
        ) || contains_text(user_agent, "iPhone");
        let cores: u32 = if reported_cores < 1 { 1 } else { reported_cores };
        let low: bool = is_mobile || cores <= 2;
        let tier: u8 = if low { 0 } else if cores <= 4 { 1 } else { 2 };
        BrowserInfo {
            is_mobile,
            is_low_end: low,
            supports_webgl2: true,
            hardware_acceleration: true,
            cpu_cores: cores,
            performance_tier: tier,
        }
    }

    /// The quality level a fresh governor starts from on this device.
    pub open spec fn initial_quality(self) -> u8 {
        let q = if self.is_low_end { 0u8 } else { self.performance_tier };
        if q > MAX_QUALITY { MAX_QUALITY } else { q }
    }
}

/// Quality level recommended for a device, from the same probe as `detect`.
pub fn get_optimal_quality_for_device(user_agent: &str, reported_cores: u32) -> (quality: u8)
    ensures
        quality == tier_of(
            names_mobile(user_agent@),
            if reported_cores < 1 { 1u32 } else { reported_cores },
        ),
        quality <= MAX_QUALITY,
{
    let info = BrowserInfo::detect(user_agent, reported_cores);
    if info.is_mobile || info.cpu_cores <= 2 {
        0
    } else if info.cpu_cores <= 4 {
        1
    } else {
        2
    }
}

} // verus!
