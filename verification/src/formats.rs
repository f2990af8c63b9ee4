//! The pixel formats: the interchange vocabulary, the formats that each
//! console container declares, and the correspondence between them; and the
//! two settings of an encoder, quality and mip policy.

use crate::text::str_eq;
use vstd::prelude::*;

verus! {

/// The interchange vocabulary of pixel formats. Every container's own format
/// enumeration is mapped onto a subset of these.
#[derive(Clone, Copy, Debug, PartialEq, Eq, Structural)]
pub enum ImageFormat {
    R8Unorm,
    R8Snorm,
    Rg8Unorm,
    Rg8Snorm,
    Rgba8Unorm,
    Rgba8UnormSrgb,
    Rgba16Float,
    Rgba32Float,
    Bgr8Unorm,
    Bgra8Unorm,
    Bgra8UnormSrgb,
    Bgra4Unorm,
    BC1RgbaUnorm,
    BC1RgbaUnormSrgb,
    BC2RgbaUnorm,
    BC2RgbaUnormSrgb,
    BC3RgbaUnorm,
    BC3RgbaUnormSrgb,
    BC4RUnorm,
    BC4RSnorm,
    BC5RgUnorm,
    BC5RgSnorm,
    BC6hRgbUfloat,
    BC6hRgbSfloat,
    BC7RgbaUnorm,
    BC7RgbaUnormSrgb,
    Rgba8Snorm,
    R16Unorm,
    R16Snorm,
    Rg16Unorm,
    Rg16Snorm,
    Rgba16Unorm,
    Rgba16Snorm,
    R16Float,
    Rg16Float,
    R32Float,
    Rg32Float,
    Rgb32Float,
    Bgr5A1Unorm,
}

/// How many formats [`ImageFormat`] has.
pub const IMAGE_FORMAT_COUNT: u8 = 39;

impl ImageFormat {
    /// Position of the format in the enumeration, starting at zero.
    pub open spec fn spec_index(self) -> u8 {
        match self {
            ImageFormat::R8Unorm => 0,
            ImageFormat::R8Snorm => 1,
            ImageFormat::Rg8Unorm => 2,
            ImageFormat::Rg8Snorm => 3,
            ImageFormat::Rgba8Unorm => 4,
            ImageFormat::Rgba8UnormSrgb => 5,
            ImageFormat::Rgba16Float => 6,
            ImageFormat::Rgba32Float => 7,
            ImageFormat::Bgr8Unorm => 8,
            ImageFormat::Bgra8Unorm => 9,
            ImageFormat::Bgra8UnormSrgb => 10,
            ImageFormat::Bgra4Unorm => 11,
            ImageFormat::BC1RgbaUnorm => 12,
            ImageFormat::BC1RgbaUnormSrgb => 13,
            ImageFormat::BC2RgbaUnorm => 14,
            ImageFormat::BC2RgbaUnormSrgb => 15,
            ImageFormat::BC3RgbaUnorm => 16,
            ImageFormat::BC3RgbaUnormSrgb => 17,
            ImageFormat::BC4RUnorm => 18,
            ImageFormat::BC4RSnorm => 19,
            ImageFormat::BC5RgUnorm => 20,
            ImageFormat::BC5RgSnorm => 21,
            ImageFormat::BC6hRgbUfloat => 22,
            ImageFormat::BC6hRgbSfloat => 23,
            ImageFormat::BC7RgbaUnorm => 24,
            ImageFormat::BC7RgbaUnormSrgb => 25,
            ImageFormat::Rgba8Snorm => 26,
            ImageFormat::R16Unorm => 27,
            ImageFormat::R16Snorm => 28,
            ImageFormat::Rg16Unorm => 29,
            ImageFormat::Rg16Snorm => 30,
            ImageFormat::Rgba16Unorm => 31,
            ImageFormat::Rgba16Snorm => 32,
            ImageFormat::R16Float => 33,
            ImageFormat::Rg16Float => 34,
            ImageFormat::R32Float => 35,
            ImageFormat::Rg32Float => 36,
            ImageFormat::Rgb32Float => 37,
            ImageFormat::Bgr5A1Unorm => 38,
        }
    }

    /// The format at a position of the enumeration.
    pub open spec fn spec_from_index(index: u8) -> Option<ImageFormat> {
        match index {
            0u8 => Some(ImageFormat::R8Unorm),
            1u8 => Some(ImageFormat::R8Snorm),
            2u8 => Some(ImageFormat::Rg8Unorm),
            3u8 => Some(ImageFormat::Rg8Snorm),
            4u8 => Some(ImageFormat::Rgba8Unorm),
            5u8 => Some(ImageFormat::Rgba8UnormSrgb),
            6u8 => Some(ImageFormat::Rgba16Float),
            7u8 => Some(ImageFormat::Rgba32Float),
            8u8 => Some(ImageFormat::Bgr8Unorm),
            9u8 => Some(ImageFormat::Bgra8Unorm),
            10u8 => Some(ImageFormat::Bgra8UnormSrgb),
            11u8 => Some(ImageFormat::Bgra4Unorm),
            12u8 => Some(ImageFormat::BC1RgbaUnorm),
            13u8 => Some(ImageFormat::BC1RgbaUnormSrgb),
            14u8 => Some(ImageFormat::BC2RgbaUnorm),
            15u8 => Some(ImageFormat::BC2RgbaUnormSrgb),
            16u8 => Some(ImageFormat::BC3RgbaUnorm),
            17u8 => Some(ImageFormat::BC3RgbaUnormSrgb),
            18u8 => Some(ImageFormat::BC4RUnorm),
            19u8 => Some(ImageFormat::BC4RSnorm),
            20u8 => Some(ImageFormat::BC5RgUnorm),
            21u8 => Some(ImageFormat::BC5RgSnorm),
            22u8 => Some(ImageFormat::BC6hRgbUfloat),
            23u8 => Some(ImageFormat::BC6hRgbSfloat),
            24u8 => Some(ImageFormat::BC7RgbaUnorm),
            25u8 => Some(ImageFormat::BC7RgbaUnormSrgb),
            26u8 => Some(ImageFormat::Rgba8Snorm),
            27u8 => Some(ImageFormat::R16Unorm),
            28u8 => Some(ImageFormat::R16Snorm),
            29u8 => Some(ImageFormat::Rg16Unorm),
            30u8 => Some(ImageFormat::Rg16Snorm),
            31u8 => Some(ImageFormat::Rgba16Unorm),
            32u8 => Some(ImageFormat::Rgba16Snorm),
            33u8 => Some(ImageFormat::R16Float),
            34u8 => Some(ImageFormat::Rg16Float),
            35u8 => Some(ImageFormat::R32Float),
            36u8 => Some(ImageFormat::Rg32Float),
            37u8 => Some(ImageFormat::Rgb32Float),
            38u8 => Some(ImageFormat::Bgr5A1Unorm),
            _ => None,
        }
    }

    /// The format's name, spelled as its variant.
    pub open spec fn spec_name(self) -> Seq<char> {
        match self {
            ImageFormat::R8Unorm => "R8Unorm"@,
            ImageFormat::R8Snorm => "R8Snorm"@,
            ImageFormat::Rg8Unorm => "Rg8Unorm"@,
            ImageFormat::Rg8Snorm => "Rg8Snorm"@,
            ImageFormat::Rgba8Unorm => "Rgba8Unorm"@,
            ImageFormat::Rgba8UnormSrgb => "Rgba8UnormSrgb"@,
            ImageFormat::Rgba16Float => "Rgba16Float"@,
            ImageFormat::Rgba32Float => "Rgba32Float"@,
            ImageFormat::Bgr8Unorm => "Bgr8Unorm"@,
            ImageFormat::Bgra8Unorm => "Bgra8Unorm"@,
            ImageFormat::Bgra8UnormSrgb => "Bgra8UnormSrgb"@,
            ImageFormat::Bgra4Unorm => "Bgra4Unorm"@,
            ImageFormat::BC1RgbaUnorm => "BC1RgbaUnorm"@,
            ImageFormat::BC1RgbaUnormSrgb => "BC1RgbaUnormSrgb"@,
            ImageFormat::BC2RgbaUnorm => "BC2RgbaUnorm"@,
            ImageFormat::BC2RgbaUnormSrgb => "BC2RgbaUnormSrgb"@,
            ImageFormat::BC3RgbaUnorm => "BC3RgbaUnorm"@,
            ImageFormat::BC3RgbaUnormSrgb => "BC3RgbaUnormSrgb"@,
            ImageFormat::BC4RUnorm => "BC4RUnorm"@,
            ImageFormat::BC4RSnorm => "BC4RSnorm"@,
            ImageFormat::BC5RgUnorm => "BC5RgUnorm"@,
            ImageFormat::BC5RgSnorm => "BC5RgSnorm"@,
            ImageFormat::BC6hRgbUfloat => "BC6hRgbUfloat"@,
            ImageFormat::BC6hRgbSfloat => "BC6hRgbSfloat"@,
            ImageFormat::BC7RgbaUnorm => "BC7RgbaUnorm"@,
            ImageFormat::BC7RgbaUnormSrgb => "BC7RgbaUnormSrgb"@,
            ImageFormat::Rgba8Snorm => "Rgba8Snorm"@,
            ImageFormat::R16Unorm => "R16Unorm"@,
            ImageFormat::R16Snorm => "R16Snorm"@,
            ImageFormat::Rg16Unorm => "Rg16Unorm"@,
            ImageFormat::Rg16Snorm => "Rg16Snorm"@,
            ImageFormat::Rgba16Unorm => "Rgba16Unorm"@,
            ImageFormat::Rgba16Snorm => "Rgba16Snorm"@,
            ImageFormat::R16Float => "R16Float"@,
            ImageFormat::Rg16Float => "Rg16Float"@,
            ImageFormat::R32Float => "R32Float"@,
            ImageFormat::Rg32Float => "Rg32Float"@,
            ImageFormat::Rgb32Float => "Rgb32Float"@,
            ImageFormat::Bgr5A1Unorm => "Bgr5A1Unorm"@,
        }
    }

    pub fn index(&self) -> (index: u8)
        ensures
            index == self.spec_index(),
            index < IMAGE_FORMAT_COUNT,
    {
        match self {
            ImageFormat::R8Unorm => 0,
            ImageFormat::R8Snorm => 1,
            ImageFormat::Rg8Unorm => 2,
            ImageFormat::Rg8Snorm => 3,
            ImageFormat::Rgba8Unorm => 4,
            ImageFormat::Rgba8UnormSrgb => 5,
            ImageFormat::Rgba16Float => 6,
            ImageFormat::Rgba32Float => 7,
            ImageFormat::Bgr8Unorm => 8,
            ImageFormat::Bgra8Unorm => 9,
            ImageFormat::Bgra8UnormSrgb => 10,
            ImageFormat::Bgra4Unorm => 11,
            ImageFormat::BC1RgbaUnorm => 12,
            ImageFormat::BC1RgbaUnormSrgb => 13,
            ImageFormat::BC2RgbaUnorm => 14,
            ImageFormat::BC2RgbaUnormSrgb => 15,
            ImageFormat::BC3RgbaUnorm => 16,
            ImageFormat::BC3RgbaUnormSrgb => 17,
            ImageFormat::BC4RUnorm => 18,
            ImageFormat::BC4RSnorm => 19,
            ImageFormat::BC5RgUnorm => 20,
            ImageFormat::BC5RgSnorm => 21,
            ImageFormat::BC6hRgbUfloat => 22,
            ImageFormat::BC6hRgbSfloat => 23,
            ImageFormat::BC7RgbaUnorm => 24,
            ImageFormat::BC7RgbaUnormSrgb => 25,
            ImageFormat::Rgba8Snorm => 26,
            ImageFormat::R16Unorm => 27,
            ImageFormat::R16Snorm => 28,
            ImageFormat::Rg16Unorm => 29,
            ImageFormat::Rg16Snorm => 30,
            ImageFormat::Rgba16Unorm => 31,
            ImageFormat::Rgba16Snorm => 32,
            ImageFormat::R16Float => 33,
            ImageFormat::Rg16Float => 34,
            ImageFormat::R32Float => 35,
            ImageFormat::Rg32Float => 36,
            ImageFormat::Rgb32Float => 37,
            ImageFormat::Bgr5A1Unorm => 38,
        }
    }

    pub fn from_index(index: u8) -> (format: Option<ImageFormat>)
        ensures
            format == Self::spec_from_index(index),
            format is Some <==> index < IMAGE_FORMAT_COUNT,
    {
        match index {
            0 => Some(ImageFormat::R8Unorm),
            1 => Some(ImageFormat::R8Snorm),
            2 => Some(ImageFormat::Rg8Unorm),
            3 => Some(ImageFormat::Rg8Snorm),
            4 => Some(ImageFormat::Rgba8Unorm),
            5 => Some(ImageFormat::Rgba8UnormSrgb),
            6 => Some(ImageFormat::Rgba16Float),
            7 => Some(ImageFormat::Rgba32Float),
            8 => Some(ImageFormat::Bgr8Unorm),
            9 => Some(ImageFormat::Bgra8Unorm),
            10 => Some(ImageFormat::Bgra8UnormSrgb),
            11 => Some(ImageFormat::Bgra4Unorm),
            12 => Some(ImageFormat::BC1RgbaUnorm),
            13 => Some(ImageFormat::BC1RgbaUnormSrgb),
            14 => Some(ImageFormat::BC2RgbaUnorm),
            15 => Some(ImageFormat::BC2RgbaUnormSrgb),
            16 => Some(ImageFormat::BC3RgbaUnorm),
            17 => Some(ImageFormat::BC3RgbaUnormSrgb),
            18 => Some(ImageFormat::BC4RUnorm),
            19 => Some(ImageFormat::BC4RSnorm),
            20 => Some(ImageFormat::BC5RgUnorm),
            21 => Some(ImageFormat::BC5RgSnorm),
            22 => Some(ImageFormat::BC6hRgbUfloat),
            23 => Some(ImageFormat::BC6hRgbSfloat),
            24 => Some(ImageFormat::BC7RgbaUnorm),
            25 => Some(ImageFormat::BC7RgbaUnormSrgb),
            26 => Some(ImageFormat::Rgba8Snorm),
            27 => Some(ImageFormat::R16Unorm),
            28 => Some(ImageFormat::R16Snorm),
            29 => Some(ImageFormat::Rg16Unorm),
            30 => Some(ImageFormat::Rg16Snorm),
            31 => Some(ImageFormat::Rgba16Unorm),
            32 => Some(ImageFormat::Rgba16Snorm),
            33 => Some(ImageFormat::R16Float),
            34 => Some(ImageFormat::Rg16Float),
            35 => Some(ImageFormat::R32Float),
            36 => Some(ImageFormat::Rg32Float),
            37 => Some(ImageFormat::Rgb32Float),
            38 => Some(ImageFormat::Bgr5A1Unorm),
            _ => None,
        }
    }

    pub fn name(&self) -> (name: &'static str)
        ensures
            name@ == self.spec_name(),
    {
        match self {
            ImageFormat::R8Unorm => "R8Unorm",
            ImageFormat::R8Snorm => "R8Snorm",
            ImageFormat::Rg8Unorm => "Rg8Unorm",
            ImageFormat::Rg8Snorm => "Rg8Snorm",
            ImageFormat::Rgba8Unorm => "Rgba8Unorm",
            ImageFormat::Rgba8UnormSrgb => "Rgba8UnormSrgb",
            ImageFormat::Rgba16Float => "Rgba16Float",
            ImageFormat::Rgba32Float => "Rgba32Float",
            ImageFormat::Bgr8Unorm => "Bgr8Unorm",
            ImageFormat::Bgra8Unorm => "Bgra8Unorm",
            ImageFormat::Bgra8UnormSrgb => "Bgra8UnormSrgb",
            ImageFormat::Bgra4Unorm => "Bgra4Unorm",
            ImageFormat::BC1RgbaUnorm => "BC1RgbaUnorm",
            ImageFormat::BC1RgbaUnormSrgb => "BC1RgbaUnormSrgb",
            ImageFormat::BC2RgbaUnorm => "BC2RgbaUnorm",
            ImageFormat::BC2RgbaUnormSrgb => "BC2RgbaUnormSrgb",
            ImageFormat::BC3RgbaUnorm => "BC3RgbaUnorm",
            ImageFormat::BC3RgbaUnormSrgb => "BC3RgbaUnormSrgb",
            ImageFormat::BC4RUnorm => "BC4RUnorm",
            ImageFormat::BC4RSnorm => "BC4RSnorm",
            ImageFormat::BC5RgUnorm => "BC5RgUnorm",
            ImageFormat::BC5RgSnorm => "BC5RgSnorm",
            ImageFormat::BC6hRgbUfloat => "BC6hRgbUfloat",
            ImageFormat::BC6hRgbSfloat => "BC6hRgbSfloat",
            ImageFormat::BC7RgbaUnorm => "BC7RgbaUnorm",
            ImageFormat::BC7RgbaUnormSrgb => "BC7RgbaUnormSrgb",
            ImageFormat::Rgba8Snorm => "Rgba8Snorm",
            ImageFormat::R16Unorm => "R16Unorm",
            ImageFormat::R16Snorm => "R16Snorm",
            ImageFormat::Rg16Unorm => "Rg16Unorm",
            ImageFormat::Rg16Snorm => "Rg16Snorm",
            ImageFormat::Rgba16Unorm => "Rgba16Unorm",
            ImageFormat::Rgba16Snorm => "Rgba16Snorm",
            ImageFormat::R16Float => "R16Float",
            ImageFormat::Rg16Float => "Rg16Float",
            ImageFormat::R32Float => "R32Float",
            ImageFormat::Rg32Float => "Rg32Float",
            ImageFormat::Rgb32Float => "Rgb32Float",
            ImageFormat::Bgr5A1Unorm => "Bgr5A1Unorm",
        }
    }

    /// The format that carries `name`, if there is one.
    pub open spec fn spec_from_name(name: Seq<char>) -> Option<ImageFormat> {
        if exists|f: ImageFormat| f.spec_name() == name {
            Some(choose|f: ImageFormat| f.spec_name() == name)
        } else {
            None
        }
    }

    pub fn from_name(name: &str) -> (format: Option<ImageFormat>)
        ensures
            format == Self::spec_from_name(name@),
            format matches Some(f) ==> f.spec_name() == name@,
    {
        let mut i: u8 = 0;
        while i < IMAGE_FORMAT_COUNT
            invariant
                i <= IMAGE_FORMAT_COUNT,
                forall|f: ImageFormat| f.spec_index() < i ==> f.spec_name() != name@,
            decreases IMAGE_FORMAT_COUNT - i,
        {
            let candidate = Self::from_index(i);
            match candidate {
                Some(f) => {
                    if str_eq(f.name(), name) {
                        proof {
                            let chosen = choose|g: ImageFormat| g.spec_name() == name@;
                            Self::lemma_names_distinct(chosen, f);
                        }
                        return Some(f);
                    }
                },
                None => {},
            }
            i = i + 1;
        }
        None
    }

    /// No two formats share a name.
    pub proof fn lemma_names_distinct(a: ImageFormat, b: ImageFormat)
        requires
            a.spec_name() == b.spec_name(),
        ensures
            a == b,
    {
        reveal_strlit("R8Unorm");
        reveal_strlit("R8Snorm");
        reveal_strlit("Rg8Unorm");
        reveal_strlit("Rg8Snorm");
        reveal_strlit("Rgba8Unorm");
        reveal_strlit("Rgba8UnormSrgb");
        reveal_strlit("Rgba16Float");
        reveal_strlit("Rgba32Float");
        reveal_strlit("Bgr8Unorm");
        reveal_strlit("Bgra8Unorm");
        reveal_strlit("Bgra8UnormSrgb");
        reveal_strlit("Bgra4Unorm");
        reveal_strlit("BC1RgbaUnorm");
        reveal_strlit("BC1RgbaUnormSrgb");
        reveal_strlit("BC2RgbaUnorm");
        reveal_strlit("BC2RgbaUnormSrgb");
        reveal_strlit("BC3RgbaUnorm");
        reveal_strlit("BC3RgbaUnormSrgb");
        reveal_strlit("BC4RUnorm");
        reveal_strlit("BC4RSnorm");
        reveal_strlit("BC5RgUnorm");
        reveal_strlit("BC5RgSnorm");
        reveal_strlit("BC6hRgbUfloat");
        reveal_strlit("BC6hRgbSfloat");
        reveal_strlit("BC7RgbaUnorm");
        reveal_strlit("BC7RgbaUnormSrgb");
        reveal_strlit("Rgba8Snorm");
        reveal_strlit("R16Unorm");
        reveal_strlit("R16Snorm");
        reveal_strlit("Rg16Unorm");
        reveal_strlit("Rg16Snorm");
        reveal_strlit("Rgba16Unorm");
        reveal_strlit("Rgba16Snorm");
        reveal_strlit("R16Float");
        reveal_strlit("Rg16Float");
        reveal_strlit("R32Float");
        reveal_strlit("Rg32Float");
        reveal_strlit("Rgb32Float");
        reveal_strlit("Bgr5A1Unorm");
        let s = a.spec_name();
        let t = b.spec_name();
        assert(s.len() == t.len());
        assert(s[0] == t[0]);
        assert(s[1] == t[1]);
        assert(s[2] == t[2]);
        assert(s[3] == t[3]);
        assert(s[4] == t[4]);
        assert(s[5] == t[5]);
        assert(s[6] == t[6]);
        assert(s[7] == t[7]);
        assert(s[8] == t[8]);
        assert(s[9] == t[9]);
        assert(s[10] == t[10]);
        assert(s[11] == t[11]);
        assert(s[12] == t[12]);
        assert(s[13] == t[13]);
        assert(s[14] == t[14]);
        assert(s[15] == t[15]);
    }
}

/// The pixel formats that a nutexb footer can declare.
#[derive(Clone, Copy, Debug, PartialEq, Eq, Structural)]
pub enum NutexbFormat {
    R8Unorm,
    R8G8B8A8Unorm,
    R8G8B8A8Srgb,
    R32G32B32A32Float,
    B8G8R8A8Unorm,
    B8G8R8A8Srgb,
    BC1Unorm,
    BC1Srgb,
    BC2Unorm,
    BC2Srgb,
    BC3Unorm,
    BC3Srgb,
    BC4Unorm,
    BC4Snorm,
    BC5Unorm,
    BC5Snorm,
    BC6Ufloat,
    BC6Sfloat,
    BC7Unorm,
    BC7Srgb,
}

impl NutexbFormat {
    /// The number that stands for the format in a footer.
    pub open spec fn spec_code(self) -> u32 {
        match self {
            NutexbFormat::R8Unorm => 0x0100,
            NutexbFormat::R8G8B8A8Unorm => 0x0400,
            NutexbFormat::R8G8B8A8Srgb => 0x0405,
            NutexbFormat::R32G32B32A32Float => 0x0434,
            NutexbFormat::B8G8R8A8Unorm => 0x0450,
            NutexbFormat::B8G8R8A8Srgb => 0x0455,
            NutexbFormat::BC1Unorm => 0x0480,
            NutexbFormat::BC1Srgb => 0x0485,
            NutexbFormat::BC2Unorm => 0x0490,
            NutexbFormat::BC2Srgb => 0x0495,
            NutexbFormat::BC3Unorm => 0x04a0,
            NutexbFormat::BC3Srgb => 0x04a5,
            NutexbFormat::BC4Unorm => 0x0180,
            NutexbFormat::BC4Snorm => 0x0185,
            NutexbFormat::BC5Unorm => 0x0280,
            NutexbFormat::BC5Snorm => 0x0285,
            NutexbFormat::BC6Ufloat => 0x04d7,
            NutexbFormat::BC6Sfloat => 0x04d8,
            NutexbFormat::BC7Unorm => 0x04e0,
            NutexbFormat::BC7Srgb => 0x04e5,
        }
    }

    pub fn code(&self) -> (code: u32)
        ensures
            code == self.spec_code(),
    {
        match self {
            NutexbFormat::R8Unorm => 0x0100,
            NutexbFormat::R8G8B8A8Unorm => 0x0400,
            NutexbFormat::R8G8B8A8Srgb => 0x0405,
            NutexbFormat::R32G32B32A32Float => 0x0434,
            NutexbFormat::B8G8R8A8Unorm => 0x0450,
            NutexbFormat::B8G8R8A8Srgb => 0x0455,
            NutexbFormat::BC1Unorm => 0x0480,
            NutexbFormat::BC1Srgb => 0x0485,
            NutexbFormat::BC2Unorm => 0x0490,
            NutexbFormat::BC2Srgb => 0x0495,
            NutexbFormat::BC3Unorm => 0x04a0,
            NutexbFormat::BC3Srgb => 0x04a5,
            NutexbFormat::BC4Unorm => 0x0180,
            NutexbFormat::BC4Snorm => 0x0185,
            NutexbFormat::BC5Unorm => 0x0280,
            NutexbFormat::BC5Snorm => 0x0285,
            NutexbFormat::BC6Ufloat => 0x04d7,
            NutexbFormat::BC6Sfloat => 0x04d8,
            NutexbFormat::BC7Unorm => 0x04e0,
            NutexbFormat::BC7Srgb => 0x04e5,
        }
    }

    /// The format that a footer's number stands for; none for a number outside
    /// the table.
    pub open spec fn spec_from_code(code: u32) -> Option<NutexbFormat> {
        if exists|f: NutexbFormat| f.spec_code() == code {
            Some(choose|f: NutexbFormat| f.spec_code() == code)
        } else {
            None
        }
    }

    pub fn from_code(code: u32) -> (format: Option<NutexbFormat>)
        ensures
            format == Self::spec_from_code(code),
            format matches Some(f) ==> f.spec_code() == code,
    {
        let format = match code {
            0x0100 => Some(NutexbFormat::R8Unorm),
            0x0400 => Some(NutexbFormat::R8G8B8A8Unorm),
            0x0405 => Some(NutexbFormat::R8G8B8A8Srgb),
            0x0434 => Some(NutexbFormat::R32G32B32A32Float),
            0x0450 => Some(NutexbFormat::B8G8R8A8Unorm),
            0x0455 => Some(NutexbFormat::B8G8R8A8Srgb),
            0x0480 => Some(NutexbFormat::BC1Unorm),
            0x0485 => Some(NutexbFormat::BC1Srgb),
            0x0490 => Some(NutexbFormat::BC2Unorm),
            0x0495 => Some(NutexbFormat::BC2Srgb),
            0x04a0 => Some(NutexbFormat::BC3Unorm),
            0x04a5 => Some(NutexbFormat::BC3Srgb),
            0x0180 => Some(NutexbFormat::BC4Unorm),
            0x0185 => Some(NutexbFormat::BC4Snorm),
            0x0280 => Some(NutexbFormat::BC5Unorm),
            0x0285 => Some(NutexbFormat::BC5Snorm),
            0x04d7 => Some(NutexbFormat::BC6Ufloat),
            0x04d8 => Some(NutexbFormat::BC6Sfloat),
            0x04e0 => Some(NutexbFormat::BC7Unorm),
            0x04e5 => Some(NutexbFormat::BC7Srgb),
            _ => None,
        };
        proof {
            match format {
                Some(f) => {
                    let chosen = choose|g: NutexbFormat| g.spec_code() == code;
                    Self::lemma_codes_distinct(chosen, f);
                },
                None => {
                    assert forall|g: NutexbFormat| g.spec_code() != code by {
                        Self::lemma_code_listed(g);
                    }
                },
            }
        }
        format
    }

    proof fn lemma_code_listed(format: NutexbFormat)
        ensures
            format.spec_code() == 0x0100 || format.spec_code() == 0x0400 || format.spec_code()
                == 0x0405 || format.spec_code() == 0x0434 || format.spec_code() == 0x0450
                || format.spec_code() == 0x0455 || format.spec_code() == 0x0480
                || format.spec_code() == 0x0485 || format.spec_code() == 0x0490
                || format.spec_code() == 0x0495 || format.spec_code() == 0x04a0
                || format.spec_code() == 0x04a5 || format.spec_code() == 0x0180
                || format.spec_code() == 0x0185 || format.spec_code() == 0x0280
                || format.spec_code() == 0x0285 || format.spec_code() == 0x04d7
                || format.spec_code() == 0x04d8 || format.spec_code() == 0x04e0
                || format.spec_code() == 0x04e5,
    {
    }

    /// No two formats share a footer number.
    pub proof fn lemma_codes_distinct(a: NutexbFormat, b: NutexbFormat)
        requires
            a.spec_code() == b.spec_code(),
        ensures
            a == b,
    {
    }
}

/// The interchange format that each nutexb format corresponds to.
pub open spec fn spec_nutexb_image_format(format: NutexbFormat) -> ImageFormat {
    match format {
        NutexbFormat::R8Unorm => ImageFormat::R8Unorm,
        NutexbFormat::R8G8B8A8Unorm => ImageFormat::Rgba8Unorm,
        NutexbFormat::R8G8B8A8Srgb => ImageFormat::Rgba8UnormSrgb,
        NutexbFormat::R32G32B32A32Float => ImageFormat::Rgba32Float,
        NutexbFormat::B8G8R8A8Unorm => ImageFormat::Bgra8Unorm,
        NutexbFormat::B8G8R8A8Srgb => ImageFormat::Bgra8UnormSrgb,
        NutexbFormat::BC1Unorm => ImageFormat::BC1RgbaUnorm,
        NutexbFormat::BC1Srgb => ImageFormat::BC1RgbaUnormSrgb,
        NutexbFormat::BC2Unorm => ImageFormat::BC2RgbaUnorm,
        NutexbFormat::BC2Srgb => ImageFormat::BC2RgbaUnormSrgb,
        NutexbFormat::BC3Unorm => ImageFormat::BC3RgbaUnorm,
        NutexbFormat::BC3Srgb => ImageFormat::BC3RgbaUnormSrgb,
        NutexbFormat::BC4Unorm => ImageFormat::BC4RUnorm,
        NutexbFormat::BC4Snorm => ImageFormat::BC4RSnorm,
        NutexbFormat::BC5Unorm => ImageFormat::BC5RgUnorm,
        NutexbFormat::BC5Snorm => ImageFormat::BC5RgSnorm,
        NutexbFormat::BC6Ufloat => ImageFormat::BC6hRgbUfloat,
        NutexbFormat::BC6Sfloat => ImageFormat::BC6hRgbSfloat,
        NutexbFormat::BC7Unorm => ImageFormat::BC7RgbaUnorm,
        NutexbFormat::BC7Srgb => ImageFormat::BC7RgbaUnormSrgb,
    }
}

impl NutexbFormat {
    /// The interchange format that this format corresponds to.
    pub fn image_format(&self) -> (format: ImageFormat)
        ensures
            format == spec_nutexb_image_format(*self),
    {
        match self {
            NutexbFormat::R8Unorm => ImageFormat::R8Unorm,
            NutexbFormat::R8G8B8A8Unorm => ImageFormat::Rgba8Unorm,
            NutexbFormat::R8G8B8A8Srgb => ImageFormat::Rgba8UnormSrgb,
            NutexbFormat::R32G32B32A32Float => ImageFormat::Rgba32Float,
            NutexbFormat::B8G8R8A8Unorm => ImageFormat::Bgra8Unorm,
            NutexbFormat::B8G8R8A8Srgb => ImageFormat::Bgra8UnormSrgb,
            NutexbFormat::BC1Unorm => ImageFormat::BC1RgbaUnorm,
            NutexbFormat::BC1Srgb => ImageFormat::BC1RgbaUnormSrgb,
            NutexbFormat::BC2Unorm => ImageFormat::BC2RgbaUnorm,
            NutexbFormat::BC2Srgb => ImageFormat::BC2RgbaUnormSrgb,
            NutexbFormat::BC3Unorm => ImageFormat::BC3RgbaUnorm,
            NutexbFormat::BC3Srgb => ImageFormat::BC3RgbaUnormSrgb,
            NutexbFormat::BC4Unorm => ImageFormat::BC4RUnorm,
            NutexbFormat::BC4Snorm => ImageFormat::BC4RSnorm,
            NutexbFormat::BC5Unorm => ImageFormat::BC5RgUnorm,
            NutexbFormat::BC5Snorm => ImageFormat::BC5RgSnorm,
            NutexbFormat::BC6Ufloat => ImageFormat::BC6hRgbUfloat,
            NutexbFormat::BC6Sfloat => ImageFormat::BC6hRgbSfloat,
            NutexbFormat::BC7Unorm => ImageFormat::BC7RgbaUnorm,
            NutexbFormat::BC7Srgb => ImageFormat::BC7RgbaUnormSrgb,
        }
    }
}

/// The correspondence sends different nutexb formats to different interchange
/// formats.
pub proof fn lemma_nutexb_image_format_injective(a: NutexbFormat, b: NutexbFormat)
    requires
        spec_nutexb_image_format(a) == spec_nutexb_image_format(b),
    ensures
        a == b,
{
}

/// The pixel formats that a bntx surface can declare.
#[derive(Clone, Copy, Debug, PartialEq, Eq, Structural)]
pub enum SurfaceFormat {
    R8Unorm,
    R8G8B8A8Unorm,
    R8G8B8A8Srgb,
    B8G8R8A8Unorm,
    B8G8R8A8Srgb,
    BC1Unorm,
    BC1Srgb,
    BC2Unorm,
    BC2Srgb,
    BC3Unorm,
    BC3Srgb,
    BC4Unorm,
    BC4Snorm,
    BC5Unorm,
    BC5Snorm,
    BC6Ufloat,
    BC6Sfloat,
    BC7Unorm,
    BC7Srgb,
}

/// The interchange format that each bntx format corresponds to.
pub open spec fn spec_bntx_image_format(format: SurfaceFormat) -> ImageFormat {
    match format {
        SurfaceFormat::R8Unorm => ImageFormat::R8Unorm,
        SurfaceFormat::R8G8B8A8Unorm => ImageFormat::Rgba8Unorm,
        SurfaceFormat::R8G8B8A8Srgb => ImageFormat::Rgba8UnormSrgb,
        SurfaceFormat::B8G8R8A8Unorm => ImageFormat::Bgra8Unorm,
        SurfaceFormat::B8G8R8A8Srgb => ImageFormat::Bgra8UnormSrgb,
        SurfaceFormat::BC1Unorm => ImageFormat::BC1RgbaUnorm,
        SurfaceFormat::BC1Srgb => ImageFormat::BC1RgbaUnormSrgb,
        SurfaceFormat::BC2Unorm => ImageFormat::BC2RgbaUnorm,
        SurfaceFormat::BC2Srgb => ImageFormat::BC2RgbaUnormSrgb,
        SurfaceFormat::BC3Unorm => ImageFormat::BC3RgbaUnorm,
        SurfaceFormat::BC3Srgb => ImageFormat::BC3RgbaUnormSrgb,
        SurfaceFormat::BC4Unorm => ImageFormat::BC4RUnorm,
        SurfaceFormat::BC4Snorm => ImageFormat::BC4RSnorm,
        SurfaceFormat::BC5Unorm => ImageFormat::BC5RgUnorm,
        SurfaceFormat::BC5Snorm => ImageFormat::BC5RgSnorm,
        SurfaceFormat::BC6Ufloat => ImageFormat::BC6hRgbUfloat,
        SurfaceFormat::BC6Sfloat => ImageFormat::BC6hRgbSfloat,
        SurfaceFormat::BC7Unorm => ImageFormat::BC7RgbaUnorm,
        SurfaceFormat::BC7Srgb => ImageFormat::BC7RgbaUnormSrgb,
    }
}

impl SurfaceFormat {
    /// The interchange format that this format corresponds to.
    pub fn image_format(&self) -> (format: ImageFormat)
        ensures
            format == spec_bntx_image_format(*self),
    {
        match self {
            SurfaceFormat::R8Unorm => ImageFormat::R8Unorm,
            SurfaceFormat::R8G8B8A8Unorm => ImageFormat::Rgba8Unorm,
            SurfaceFormat::R8G8B8A8Srgb => ImageFormat::Rgba8UnormSrgb,
            SurfaceFormat::B8G8R8A8Unorm => ImageFormat::Bgra8Unorm,
            SurfaceFormat::B8G8R8A8Srgb => ImageFormat::Bgra8UnormSrgb,
            SurfaceFormat::BC1Unorm => ImageFormat::BC1RgbaUnorm,
            SurfaceFormat::BC1Srgb => ImageFormat::BC1RgbaUnormSrgb,
            SurfaceFormat::BC2Unorm => ImageFormat::BC2RgbaUnorm,
            SurfaceFormat::BC2Srgb => ImageFormat::BC2RgbaUnormSrgb,
            SurfaceFormat::BC3Unorm => ImageFormat::BC3RgbaUnorm,
            SurfaceFormat::BC3Srgb => ImageFormat::BC3RgbaUnormSrgb,
            SurfaceFormat::BC4Unorm => ImageFormat::BC4RUnorm,
            SurfaceFormat::BC4Snorm => ImageFormat::BC4RSnorm,
            SurfaceFormat::BC5Unorm => ImageFormat::BC5RgUnorm,
            SurfaceFormat::BC5Snorm => ImageFormat::BC5RgSnorm,
            SurfaceFormat::BC6Ufloat => ImageFormat::BC6hRgbUfloat,
            SurfaceFormat::BC6Sfloat => ImageFormat::BC6hRgbSfloat,
            SurfaceFormat::BC7Unorm => ImageFormat::BC7RgbaUnorm,
            SurfaceFormat::BC7Srgb => ImageFormat::BC7RgbaUnormSrgb,
        }
    }
}

/// The correspondence sends different bntx formats to different interchange
/// formats.
pub proof fn lemma_bntx_image_format_injective(a: SurfaceFormat, b: SurfaceFormat)
    requires
        spec_bntx_image_format(a) == spec_bntx_image_format(b),
    ensures
        a == b,
{
}

/// The trade between speed and fidelity when searching for a block
/// compression.
#[derive(Clone, Copy, Debug, PartialEq, Eq, Structural)]
pub enum Quality {
    Fast,
    Normal,
    Slow,
}

impl Quality {
    /// The preset's name, spelled as its variant.
    pub open spec fn spec_name(self) -> Seq<char> {
        match self {
            Quality::Fast => "Fast"@,
            Quality::Normal => "Normal"@,
            Quality::Slow => "Slow"@,
        }
    }

    pub fn name(&self) -> (name: &'static str)
        ensures
            name@ == self.spec_name(),
    {
        match self {
            Quality::Fast => "Fast",
            Quality::Normal => "Normal",
            Quality::Slow => "Slow",
        }
    }
}

/// How many mip levels an encoded surface gets.
#[derive(Clone, Copy, Debug, PartialEq, Eq, Structural)]
pub enum Mipmaps {
    /// The base level only.
    Disabled,
    /// As many levels as the source surface has, taken from it.
    FromSurface,
    /// This many levels, generated from the base level.
    GeneratedExact(u32),
    /// A full chain down to one pixel, generated from the base level.
    GeneratedAutomatic,
}

} // verus!
