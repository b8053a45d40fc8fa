//! GPU vendors and the identifiers under which drivers report them.

use crate::ascii_art::{
    AMD, AMD_STYLE, AMD_STYLE_ALT, APPLE, APPLE_STYLE, APPLE_STYLE_ALT, ARM, ARM_STYLE,
    ARM_STYLE_ALT, BLOCK, CHARS, GOOGLE, GOOGLE_STYLE, GOOGLE_STYLE_ALT, INTEL, INTEL_STYLE,
    INTEL_STYLE_ALT, LUT_SIZE, MICROSOFT, MICROSOFT_STYLE, MICROSOFT_STYLE_ALT, NVIDIA,
    NVIDIA_STYLE, NVIDIA_STYLE_ALT, QUALCOMM, QUALCOMM_STYLE, QUALCOMM_STYLE_ALT, VULKAN,
    VULKAN_STYLE, VULKAN_STYLE_ALT,
};
use crate::terminal::is_ansi_supported;
use crate::text::{replace_char, replace_symbol, slice_texts, texts};
use vstd::prelude::*;

verus! {

/// A GPU vendor, as registered with PCI-SIG or with Khronos.
#[derive(Debug, Clone, Copy, PartialEq, Eq, Structural)]
pub enum Vendor {
    AMD,
    ImgTec,
    Apple,
    Nvidia,
    ARM,
    Microsoft,
    Google,
    Qualcomm,
    Intel,
    Unknown,
    VIV,
    VSI,
    Kazan,
    Codeplay,
    Mesa,
    Pocl,
    MobileEye,
}

impl Vendor {
    /// The 32-bit identifier under which a driver reports this vendor.
    pub open spec fn id(self) -> u32 {
        match self {
            Vendor::AMD => 0x1002,
            Vendor::ImgTec => 0x1010,
            Vendor::Apple => 0x106B,
            Vendor::Nvidia => 0x10DE,
            Vendor::ARM => 0x13B5,
            Vendor::Microsoft => 0x1414,
            Vendor::Google => 0x1AE0,
            Vendor::Qualcomm => 0x5143,
            Vendor::Intel => 0x8086,
            Vendor::Unknown => 0xFFFF,
            Vendor::VIV => 0x10001,
            Vendor::VSI => 0x10002,
            Vendor::Kazan => 0x10003,
            Vendor::Codeplay => 0x10004,
            Vendor::Mesa => 0x10005,
            Vendor::Pocl => 0x10006,
            Vendor::MobileEye => 0x10007,
        }
    }

    /// The vendor registered under `id`, if there is one: the table of
    /// recognised identifiers, read from the identifier to the vendor.
    pub open spec fn lookup(id: u32) -> Option<Vendor> {
        if id == 0x1002 {
            Some(Vendor::AMD)
        } else if id == 0x1010 {
            Some(Vendor::ImgTec)
        } else if id == 0x106B {
            Some(Vendor::Apple)
        } else if id == 0x10DE {
            Some(Vendor::Nvidia)
        } else if id == 0x13B5 {
            Some(Vendor::ARM)
        } else if id == 0x1414 {
            Some(Vendor::Microsoft)
        } else if id == 0x1AE0 {
            Some(Vendor::Google)
        } else if id == 0x5143 {
            Some(Vendor::Qualcomm)
        } else if id == 0x8086 {
            Some(Vendor::Intel)
        } else if id == 0xFFFF {
            Some(Vendor::Unknown)
        } else if id == 0x10001 {
            Some(Vendor::VIV)
        } else if id == 0x10002 {
            Some(Vendor::VSI)
        } else if id == 0x10003 {
            Some(Vendor::Kazan)
        } else if id == 0x10004 {
            Some(Vendor::Codeplay)
        } else if id == 0x10005 {
            Some(Vendor::Mesa)
        } else if id == 0x10006 {
            Some(Vendor::Pocl)
        } else if id == 0x10007 {
            Some(Vendor::MobileEye)
        } else {
            None
        }
    }

    /// The name under which the vendor is shown.
    pub open spec fn label(self) -> Seq<char> {
        match self {
            Vendor::AMD => "AMD"@,
            Vendor::Apple => "Apple"@,
            Vendor::ARM => "ARM"@,
            Vendor::Codeplay => "Codeplay"@,
            Vendor::Google => "Google"@,
            Vendor::ImgTec => "ImgTec"@,
            Vendor::Intel => "Intel"@,
            Vendor::Kazan => "Kazan"@,
            Vendor::Mesa => "Mesa"@,
            Vendor::MobileEye => "MobileEye"@,
            Vendor::Nvidia => "Nvidia"@,
            Vendor::Pocl => "Pocl"@,
            Vendor::Qualcomm => "Qualcomm"@,
            Vendor::Unknown => "Unknown"@,
            Vendor::VIV => "VIV"@,
            Vendor::VSI => "VSI"@,
            Vendor::Microsoft => "Microsoft"@,
        }
    }

    /// The colours of the vendor's picture, one entry for each symbol; an
    /// empty entry leaves its symbol as it is. `bright` picks the bright
    /// forms of the colours.
    pub open spec fn palette(self, bright: bool) -> [&'static str; 5] {
        match self {
            Vendor::AMD => if bright { AMD_STYLE_ALT } else { AMD_STYLE },
            Vendor::Apple => if bright { APPLE_STYLE_ALT } else { APPLE_STYLE },
            Vendor::ARM => if bright { ARM_STYLE_ALT } else { ARM_STYLE },
            Vendor::Google => if bright { GOOGLE_STYLE_ALT } else { GOOGLE_STYLE },
            Vendor::Intel => if bright { INTEL_STYLE_ALT } else { INTEL_STYLE },
            Vendor::Nvidia => if bright { NVIDIA_STYLE_ALT } else { NVIDIA_STYLE },
            Vendor::Microsoft => if bright { MICROSOFT_STYLE_ALT } else { MICROSOFT_STYLE },
            Vendor::Qualcomm => if bright { QUALCOMM_STYLE_ALT } else { QUALCOMM_STYLE },
            _ => if bright { VULKAN_STYLE_ALT } else { VULKAN_STYLE },
        }
    }

    /// The lines of the vendor's picture before they are painted. A vendor
    /// without a picture of its own has the general one.
    pub open spec fn picture(self) -> Seq<&'static str> {
        match self {
            Vendor::AMD => AMD@,
            Vendor::Apple => APPLE@,
            Vendor::ARM => ARM@,
            Vendor::Google => GOOGLE@,
            Vendor::Intel => INTEL@,
            Vendor::Nvidia => NVIDIA@,
            Vendor::Microsoft => MICROSOFT@,
            Vendor::Qualcomm => QUALCOMM@,
            _ => VULKAN@,
        }
    }

    /// The vendor's picture painted in its colours, plain or bright.
    pub open spec fn painted_picture(self, bright: bool) -> Seq<Seq<char>> {
        paint(slice_texts(self.picture()), slice_texts(self.palette(bright)@))
    }

    /// Constructs a vendor from the identifier a driver reports, if it is a
    /// recognised one.
    pub fn from_vendor_id(id: u32) -> (vendor: Option<Vendor>)
        ensures
            vendor == Vendor::lookup(id),
    {
        match id {
            0x1002 => Some(Vendor::AMD),
            0x1010 => Some(Vendor::ImgTec),
            0x106B => Some(Vendor::Apple),
            0x10DE => Some(Vendor::Nvidia),
            0x13B5 => Some(Vendor::ARM),
            0x1414 => Some(Vendor::Microsoft),
            0x1AE0 => Some(Vendor::Google),
            0x5143 => Some(Vendor::Qualcomm),
            0x8086 => Some(Vendor::Intel),
            0xFFFF => Some(Vendor::Unknown),
            0x10001 => Some(Vendor::VIV),
            0x10002 => Some(Vendor::VSI),
            0x10003 => Some(Vendor::Kazan),
            0x10004 => Some(Vendor::Codeplay),
            0x10005 => Some(Vendor::Mesa),
            0x10006 => Some(Vendor::Pocl),
            0x10007 => Some(Vendor::MobileEye),
            _ => None,
        }
    }

    /// Returns a human-readable name for the vendor.
    pub fn name(&self) -> (name: &'static str)
        ensures
            name@ == self.label(),
    {
        match self {
            Vendor::AMD => "AMD",
            Vendor::Apple => "Apple",
            Vendor::ARM => "ARM",
            Vendor::Codeplay => "Codeplay",
            Vendor::Google => "Google",
            Vendor::ImgTec => "ImgTec",
            Vendor::Intel => "Intel",
            Vendor::Kazan => "Kazan",
            Vendor::Mesa => "Mesa",
            Vendor::MobileEye => "MobileEye",
            Vendor::Nvidia => "Nvidia",
            Vendor::Pocl => "Pocl",
            Vendor::Qualcomm => "Qualcomm",
            Vendor::Unknown => "Unknown",
            Vendor::VIV => "VIV",
            Vendor::VSI => "VSI",
            Vendor::Microsoft => "Microsoft",
        }
    }

    /// The vendor as it is printed: its human-readable name.
    pub fn to_string(&self) -> (shown: String)
        ensures
            shown@ == self.label(),
    {
        self.name().to_owned()
    }

    /// Returns the identifier under which a driver reports the vendor.
    pub fn vendor_id(self) -> (id: u32)
        ensures
            id == self.id(),
    {
        match self {
            Vendor::AMD => 0x1002,
            Vendor::ImgTec => 0x1010,
            Vendor::Apple => 0x106B,
            Vendor::Nvidia => 0x10DE,
            Vendor::ARM => 0x13B5,
            Vendor::Microsoft => 0x1414,
            Vendor::Google => 0x1AE0,
            Vendor::Qualcomm => 0x5143,
            Vendor::Intel => 0x8086,
            Vendor::Unknown => 0xFFFF,
            Vendor::VIV => 0x10001,
            Vendor::VSI => 0x10002,
            Vendor::Kazan => 0x10003,
            Vendor::Codeplay => 0x10004,
            Vendor::Mesa => 0x10005,
            Vendor::Pocl => 0x10006,
            Vendor::MobileEye => 0x10007,
        }
    }

    /// Returns the colours of the vendor's picture in their plain forms.
    pub fn get_style(&self) -> (style: [&'static str; LUT_SIZE])
        ensures
            style == self.palette(false),
    {
        match self {
            Vendor::AMD => AMD_STYLE,
            Vendor::Apple => APPLE_STYLE,
            Vendor::ARM => ARM_STYLE,
            Vendor::Google => GOOGLE_STYLE,
            Vendor::Intel => INTEL_STYLE,
            Vendor::Nvidia => NVIDIA_STYLE,
            Vendor::Microsoft => MICROSOFT_STYLE,
            Vendor::Qualcomm => QUALCOMM_STYLE,
            Vendor::Mesa => VULKAN_STYLE,
            Vendor::Unknown
            | Vendor::ImgTec
            | Vendor::VIV
            | Vendor::VSI
            | Vendor::Kazan
            | Vendor::Codeplay
            | Vendor::Pocl
            | Vendor::MobileEye => VULKAN_STYLE,
        }
    }

    /// Returns the colours of the vendor's picture in their bright forms.
    pub fn get_alternative_style(&self) -> (style: [&'static str; LUT_SIZE])
        ensures
            style == self.palette(true),
    {
        match self {
            Vendor::AMD => AMD_STYLE_ALT,
            Vendor::Apple => APPLE_STYLE_ALT,
            Vendor::ARM => ARM_STYLE_ALT,
            Vendor::Google => GOOGLE_STYLE_ALT,
            Vendor::Intel => INTEL_STYLE_ALT,
            Vendor::Nvidia => NVIDIA_STYLE_ALT,
            Vendor::Microsoft => MICROSOFT_STYLE_ALT,
            Vendor::Qualcomm => QUALCOMM_STYLE_ALT,
            Vendor::Mesa => VULKAN_STYLE_ALT,
            Vendor::Unknown
            | Vendor::ImgTec
            | Vendor::VIV
            | Vendor::VSI
            | Vendor::Kazan
            | Vendor::Codeplay
            | Vendor::Pocl
            | Vendor::MobileEye => VULKAN_STYLE_ALT,
        }
    }

    /// Returns the vendor's picture painted in the colours of `style`.
    pub fn paint_picture(&self, style: &[&'static str; LUT_SIZE]) -> (art: Vec<String>)
        ensures
            texts(art@) == paint(slice_texts(self.picture()), slice_texts(style@)),
    {
        match self {
            Vendor::AMD => paint_lines(&AMD, style),
            Vendor::Apple => paint_lines(&APPLE, style),
            Vendor::ARM => paint_lines(&ARM, style),
            Vendor::Google => paint_lines(&GOOGLE, style),
            Vendor::Intel => paint_lines(&INTEL, style),
            Vendor::Nvidia => paint_lines(&NVIDIA, style),
            Vendor::Microsoft => paint_lines(&MICROSOFT, style),
            Vendor::Qualcomm => paint_lines(&QUALCOMM, style),
            Vendor::Mesa => paint_lines(&VULKAN, style),
            Vendor::Unknown
            | Vendor::ImgTec
            | Vendor::VIV
            | Vendor::VSI
            | Vendor::Kazan
            | Vendor::Codeplay
            | Vendor::Pocl
            | Vendor::MobileEye => paint_lines(&VULKAN, style),
        }
    }

    /// Returns the vendor's picture with colour applied: in the bright forms
    /// where `bright` is set, in the plain forms where it is not.
    pub fn get_ascii_art_in(&self, bright: bool) -> (art: Vec<String>)
        ensures
            texts(art@) == self.painted_picture(bright),
    {
        let style = if bright {
            self.get_alternative_style()
        } else {
            self.get_style()
        };
        self.paint_picture(&style)
    }

    /// Returns the vendor-specific picture with colour applied. The colours
    /// are the bright ones where the output is a terminal that shows them,
    /// and the plain ones elsewhere.
    pub fn get_ascii_art(&self) -> (art: Vec<String>)
        ensures
            texts(art@) == self.painted_picture(true) || texts(art@) == self.painted_picture(false),
    {
        let bright = is_ansi_supported();
        self.get_ascii_art_in(bright)
    }
}

/// What a symbol with the colour `colour` is replaced by: the colour, then a
/// block.
pub open spec fn painted_symbol(colour: Seq<char>) -> Seq<char> {
    colour + BLOCK@
}

/// `line` after the first `count` symbols have been painted, one after the
/// other and each in its colour; a symbol whose colour is empty stays.
pub open spec fn paint_line(line: Seq<char>, style: Seq<Seq<char>>, count: int) -> Seq<char>
    decreases count,
{
    if count <= 0 {
        line
    } else {
        let before = paint_line(line, style, count - 1);
        if style[count - 1].len() == 0 {
            before
        } else {
            replace_char(before, CHARS[count - 1], painted_symbol(style[count - 1]))
        }
    }
}

/// A picture with all its symbols painted in the colours of `style`.
pub open spec fn paint(picture: Seq<Seq<char>>, style: Seq<Seq<char>>) -> Seq<Seq<char>> {
    Seq::new(picture.len(), |i: int| paint_line(picture[i], style, CHARS@.len() as int))
}

/// Paints one line in the colours of `style`.
fn paint_one(line: &'static str, style: &[&'static str; LUT_SIZE]) -> (painted: String)
    ensures
        painted@ == paint_line(line@, slice_texts(style@), CHARS@.len() as int),
{
    let mut painted = line.to_owned();
    let mut k: usize = 0;
    while k < LUT_SIZE
        invariant
            k <= LUT_SIZE,
            painted@ == paint_line(line@, slice_texts(style@), k as int),
        decreases LUT_SIZE - k,
    {
        let colour = style[k];
        if !colour.is_empty() {
            let mut by = colour.to_owned();
            by.append(BLOCK);
            painted = replace_symbol(painted.as_str(), CHARS[k], by.as_str());
        }
        k += 1;
    }
    painted
}

/// Paints the lines of a picture in the colours of `style`.
fn paint_lines<const N: usize>(picture: &[&'static str; N], style: &[&'static str; LUT_SIZE]) -> (art:
    Vec<String>)
    ensures
        texts(art@) == paint(slice_texts(picture@), slice_texts(style@)),
{
    let mut art: Vec<String> = Vec::new();
    let mut i: usize = 0;
    while i < N
        invariant
            i <= N,
            art.len() == i,
            forall|j: int|
                0 <= j < i ==> (#[trigger] art[j])@ == paint_line(
                    picture@[j]@,
                    slice_texts(style@),
                    CHARS@.len() as int,
                ),
        decreases N - i,
    {
        art.push(paint_one(picture[i], style));
        i += 1;
    }
    assert(texts(art@) =~= paint(slice_texts(picture@), slice_texts(style@)));
    art
}

impl From<Vendor> for u32 {
    fn from(v: Vendor) -> (id: u32) {
        v.vendor_id()
    }
}

impl vstd::std_specs::convert::FromSpecImpl<Vendor> for u32 {
    open spec fn obeys_from_spec() -> bool {
        true
    }

    open spec fn from_spec(v: Vendor) -> u32 {
        v.id()
    }
}

/// Every vendor is found again under its own identifier.
pub proof fn lemma_lookup_inverts_id(vendor: Vendor)
    ensures
        Vendor::lookup(vendor.id()) == Some(vendor),
{
}

/// An identifier resolves only to the vendor that carries it, so the table
/// holds no identifier twice and recognises nothing outside itself.
pub proof fn lemma_lookup_is_exact(id: u32)
    ensures
        Vendor::lookup(id) matches Some(v) ==> v.id() == id,
        Vendor::lookup(id) is None <==> forall|v: Vendor| v.id() != id,
{
    if Vendor::lookup(id) is Some {
        let v = Vendor::lookup(id).unwrap();
        assert(v.id() == id);
    }
}

} // verus!
