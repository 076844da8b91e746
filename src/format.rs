//! Choice of the colour format that the swapchain presents in.
use vstd::prelude::*;

verus! {

/// How the channels of a surface format are encoded.
#[derive(Clone, Copy, Debug, PartialEq, Eq, Structural)]
pub enum ChannelKind {
    /// Unsigned normalized.
    Unorm,
    /// Signed normalized.
    Inorm,
    /// Unsigned integer.
    Uint,
    /// Signed integer.
    Int,
    /// Unsigned floating point.
    Ufloat,
    /// Signed floating point.
    Float,
    /// Unsigned scaled integer.
    Uscaled,
    /// Signed scaled integer.
    Iscaled,
    /// Unsigned normalized, sRGB non-linear encoded.
    Srgb,
}

/// The format picked for the surface: one of the formats the surface lists,
/// by its position in that list, or the fixed default (eight-bit RGBA, sRGB).
#[derive(Clone, Copy, Debug, PartialEq, Eq, Structural)]
pub enum FormatChoice {
    Listed(usize),
    Default,
}

/// `i` is the position of the first sRGB format of `s`.
pub open spec fn is_first_srgb(s: Seq<ChannelKind>, i: int) -> bool {
    &&& 0 <= i < s.len()
    &&& s[i] == ChannelKind::Srgb
    &&& forall|j: int| 0 <= j < i ==> s[j] != ChannelKind::Srgb
}

/// `s` lists at least one sRGB format.
pub open spec fn has_srgb(s: Seq<ChannelKind>) -> bool {
    exists|i: int| 0 <= i < s.len() && s[i] == ChannelKind::Srgb
}

/// The format chosen for a surface that lists formats with the channel kinds
/// `formats` (or `None` where the surface lists none): the first sRGB one,
/// else the default.
pub open spec fn format_choice(formats: Option<Seq<ChannelKind>>) -> FormatChoice {
    match formats {
        Some(s) => if has_srgb(s) {
            FormatChoice::Listed((choose|i: int| is_first_srgb(s, i)) as usize)
        } else {
            FormatChoice::Default
        },
        None => FormatChoice::Default,
    }
}

/// The view of a format list as handed over by the surface.
pub open spec fn formats_view(formats: &Option<Vec<ChannelKind>>) -> Option<Seq<ChannelKind>> {
    match formats {
        Some(v) => Some(v@),
        None => None,
    }
}

/// The first sRGB position is unique.
pub proof fn lemma_first_srgb_unique(s: Seq<ChannelKind>, i: int, k: int)
    requires
        is_first_srgb(s, i),
        is_first_srgb(s, k),
    ensures
        i == k,
{
    if i < k {
        assert(s[i] != ChannelKind::Srgb);
    } else if k < i {
        assert(s[k] != ChannelKind::Srgb);
    }
}

/// Picks the surface format: the first listed format whose channels are sRGB
/// encoded; where the surface lists no such format, or no list at all, the
/// default format.
pub fn choose_surface_format(formats: &Option<Vec<ChannelKind>>) -> (r: FormatChoice)
    ensures
        r == format_choice(formats_view(formats)),
        match r {
            FormatChoice::Listed(i) => formats.is_some() && is_first_srgb(
                formats_view(formats).unwrap(),
                i as int,
            ),
            FormatChoice::Default => formats.is_none() || !has_srgb(formats_view(formats).unwrap()),
        },
{
    if formats.is_none() {
        return FormatChoice::Default;
    }
    let list = formats.as_ref().unwrap();
    let mut i: usize = 0;
    while i < list.len()
        invariant
            formats_view(formats) == Some(list@),
            0 <= i <= list@.len(),
            forall|j: int| 0 <= j < i ==> list@[j] != ChannelKind::Srgb,
        decreases list@.len() - i,
    {
        if list[i] == ChannelKind::Srgb {
            proof {
                assert(is_first_srgb(list@, i as int));
                let k = choose|k: int| is_first_srgb(list@, k);
                lemma_first_srgb_unique(list@, i as int, k);
            }
            return FormatChoice::Listed(i);
        }
        i = i + 1;
    }
    FormatChoice::Default
}

} // verus!
