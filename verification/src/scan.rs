use vstd::prelude::*;

verus! {

/// ASCII lowercase of one byte: letters 'A' to 'Z' (65 to 90) move down to
/// 'a' to 'z'; everything else is unchanged.
pub open spec fn spec_ascii_lower(b: u8) -> u8 {
    if 65 <= b && b <= 90 {
        (b + 32) as u8
    } else {
        b
    }
}

/// Whether a file extension, compared after ASCII case folding, marks a
/// file as an image source: png, jpg, jpeg, gif, bmp or tif (the byte
/// values spell those extensions out).
pub open spec fn spec_is_source_extension(ext: Seq<u8>) -> bool {
    ||| (ext.len() == 3 && spec_ascii_lower(ext[0]) == 112 && spec_ascii_lower(ext[1]) == 110
        && spec_ascii_lower(ext[2]) == 103)
    ||| (ext.len() == 3 && spec_ascii_lower(ext[0]) == 106 && spec_ascii_lower(ext[1]) == 112
        && spec_ascii_lower(ext[2]) == 103)
    ||| (ext.len() == 4 && spec_ascii_lower(ext[0]) == 106 && spec_ascii_lower(ext[1]) == 112
        && spec_ascii_lower(ext[2]) == 101 && spec_ascii_lower(ext[3]) == 103)
    ||| (ext.len() == 3 && spec_ascii_lower(ext[0]) == 103 && spec_ascii_lower(ext[1]) == 105
        && spec_ascii_lower(ext[2]) == 102)
    ||| (ext.len() == 3 && spec_ascii_lower(ext[0]) == 98 && spec_ascii_lower(ext[1]) == 109
        && spec_ascii_lower(ext[2]) == 112)
    ||| (ext.len() == 3 && spec_ascii_lower(ext[0]) == 116 && spec_ascii_lower(ext[1]) == 105
        && spec_ascii_lower(ext[2]) == 102)
}

fn ascii_lower(b: u8) -> (r: u8)
    ensures
        r == spec_ascii_lower(b),
{
    if b >= 65 && b <= 90 {
        b + 32
    } else {
        b
    }
}

/// Decides whether a directory entry with this extension (as raw bytes,
/// case-insensitively) is taken as an image source.
pub fn is_source_extension(ext: &[u8]) -> (r: bool)
    ensures
        r == spec_is_source_extension(ext@),
{
    if ext.len() == 3 {
        let a = ascii_lower(ext[0]);
        let b = ascii_lower(ext[1]);
        let c = ascii_lower(ext[2]);
        (a == 112 && b == 110 && c == 103) || (a == 106 && b == 112 && c == 103) || (a
            == 103 && b == 105 && c == 102) || (a == 98 && b == 109 && c == 112) || (a
            == 116 && b == 105 && c == 102)
    } else if ext.len() == 4 {
        let a = ascii_lower(ext[0]);
        let b = ascii_lower(ext[1]);
        let c = ascii_lower(ext[2]);
        let d = ascii_lower(ext[3]);
        a == 106 && b == 112 && c == 101 && d == 103
    } else {
        false
    }
}

} // verus!
