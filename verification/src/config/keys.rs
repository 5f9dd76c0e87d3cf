//! The keys of the settings object are pairwise distinct.
use vstd::prelude::*;

verus! {

/// A number that tells the settings' keys apart: the length and the last
/// character.
#[verifier::opaque]
pub open spec fn key_code(key: Seq<char>) -> int {
    key.len() * 0x20_0000 + key.last() as int
}

/// The code of each key.
pub proof fn lemma_key_codes()
    ensures
        key_code("serverUrl"@) == 9 * 0x20_0000 + 'l' as int,
        key_code("hwdec"@) == 5 * 0x20_0000 + 'c' as int,
        key_code("audioPassthrough"@) == 16 * 0x20_0000 + 'h' as int,
        key_code("audioChannels"@) == 13 * 0x20_0000 + 's' as int,
        key_code("logLevel"@) == 8 * 0x20_0000 + 'l' as int,
        key_code("deviceName"@) == 10 * 0x20_0000 + 'e' as int,
        key_code("windowWidth"@) == 11 * 0x20_0000 + 'h' as int,
        key_code("windowHeight"@) == 12 * 0x20_0000 + 't' as int,
        key_code("windowLogicalWidth"@) == 18 * 0x20_0000 + 'h' as int,
        key_code("windowLogicalHeight"@) == 19 * 0x20_0000 + 't' as int,
        key_code("windowScale"@) == 11 * 0x20_0000 + 'e' as int,
        key_code("windowX"@) == 7 * 0x20_0000 + 'X' as int,
        key_code("windowY"@) == 7 * 0x20_0000 + 'Y' as int,
        key_code("windowMaximized"@) == 15 * 0x20_0000 + 'd' as int,
        key_code("audioExclusive"@) == 14 * 0x20_0000 + 'e' as int,
        key_code("disableGpuCompositing"@) == 21 * 0x20_0000 + 'g' as int,
        key_code("transparentTitlebar"@) == 19 * 0x20_0000 + 'r' as int,
        key_code("forceTranscoding"@) == 16 * 0x20_0000 + 'g' as int,
        key_code("windowDecorations"@) == 17 * 0x20_0000 + 's' as int,
        key_code("hideScrollbar"@) == 13 * 0x20_0000 + 'r' as int,
        key_code("deviceNameDefault"@) == 17 * 0x20_0000 + 't' as int,
        key_code("hwdecOptions"@) == 12 * 0x20_0000 + 's' as int,
{
    reveal(key_code);
    reveal_strlit("serverUrl");
    reveal_strlit("hwdec");
    reveal_strlit("audioPassthrough");
    reveal_strlit("audioChannels");
    reveal_strlit("logLevel");
    reveal_strlit("deviceName");
    reveal_strlit("windowWidth");
    reveal_strlit("windowHeight");
    reveal_strlit("windowLogicalWidth");
    reveal_strlit("windowLogicalHeight");
    reveal_strlit("windowScale");
    reveal_strlit("windowX");
    reveal_strlit("windowY");
    reveal_strlit("windowMaximized");
    reveal_strlit("audioExclusive");
    reveal_strlit("disableGpuCompositing");
    reveal_strlit("transparentTitlebar");
    reveal_strlit("forceTranscoding");
    reveal_strlit("windowDecorations");
    reveal_strlit("hideScrollbar");
    reveal_strlit("deviceNameDefault");
    reveal_strlit("hwdecOptions");
}

} // verus!
