//! The tags of a tensor: memory layout, element precision, resize algorithm.
//!
//! Each tag crosses the native boundary as a number. Inside the bridge it is
//! an enum, so that a descriptor can only hold a tag the bridge understands.

use vstd::prelude::*;

verus! {

/// The order in which a tensor's axes are laid out in memory.
#[derive(Debug, Clone, Copy, PartialEq, Eq, Structural)]
pub enum Layout {
    Any,
    NCHW,
    NHWC,
    NCDHW,
    NDHWC,
    OIHW,
    Scalar,
    C,
    CHW,
    HW,
    NC,
    CN,
    Blocked,
}

impl Layout {
    /// The number that stands for this layout across the boundary.
    pub open spec fn spec_code(self) -> u32 {
        match self {
            Layout::Any => 0,
            Layout::NCHW => 1,
            Layout::NHWC => 2,
            Layout::NCDHW => 3,
            Layout::NDHWC => 4,
            Layout::OIHW => 64,
            Layout::Scalar => 95,
            Layout::C => 96,
            Layout::CHW => 128,
            Layout::HW => 192,
            Layout::NC => 193,
            Layout::CN => 194,
            Layout::Blocked => 200,
        }
    }

    /// The layout that `code` stands for, if any.
    pub open spec fn spec_from_code(code: u32) -> Option<Layout> {
        if exists|l: Layout| l.spec_code() == code {
            Some(choose|l: Layout| l.spec_code() == code)
        } else {
            None
        }
    }

    pub fn code(self) -> (c: u32)
        ensures
            c == self.spec_code(),
    {
        match self {
            Layout::Any => 0,
            Layout::NCHW => 1,
            Layout::NHWC => 2,
            Layout::NCDHW => 3,
            Layout::NDHWC => 4,
            Layout::OIHW => 64,
            Layout::Scalar => 95,
            Layout::C => 96,
            Layout::CHW => 128,
            Layout::HW => 192,
            Layout::NC => 193,
            Layout::CN => 194,
            Layout::Blocked => 200,
        }
    }

    /// Reads a layout from its number: `Some` exactly for the numbers that
    /// stand for a layout.
    pub fn from_code(code: u32) -> (r: Option<Layout>)
        ensures
            r == Self::spec_from_code(code),
            r matches Some(l) ==> l.spec_code() == code,
            r is None ==> forall|l: Layout| l.spec_code() != code,
    {
        let r = if code == 0 {
            Some(Layout::Any)
        } else if code == 1 {
            Some(Layout::NCHW)
        } else if code == 2 {
            Some(Layout::NHWC)
        } else if code == 3 {
            Some(Layout::NCDHW)
        } else if code == 4 {
            Some(Layout::NDHWC)
        } else if code == 64 {
            Some(Layout::OIHW)
        } else if code == 95 {
            Some(Layout::Scalar)
        } else if code == 96 {
            Some(Layout::C)
        } else if code == 128 {
            Some(Layout::CHW)
        } else if code == 192 {
            Some(Layout::HW)
        } else if code == 193 {
            Some(Layout::NC)
        } else if code == 194 {
            Some(Layout::CN)
        } else if code == 200 {
            Some(Layout::Blocked)
        } else {
            None
        };
        proof {
            match r {
                Some(l) => {
                    assert(l.spec_code() == code);
                    Self::code_is_injective(l, choose|m: Layout| m.spec_code() == code);
                },
                None => {
                    assert forall|l: Layout| l.spec_code() != code by {
                        Self::code_is_listed(l);
                    }
                },
            }
        }
        r
    }

    /// No two layouts share a number.
    pub proof fn code_is_injective(a: Layout, b: Layout)
        ensures
            a.spec_code() == b.spec_code() ==> a == b,
    {
    }

    /// A layout's number reads back as that layout.
    pub proof fn code_round_trip(l: Layout)
        ensures
            Self::spec_from_code(l.spec_code()) == Some(l),
    {
        Self::code_is_injective(l, choose|m: Layout| m.spec_code() == l.spec_code());
    }

    proof fn code_is_listed(l: Layout)
        ensures
            l.spec_code() == 0 || l.spec_code() == 1 || l.spec_code() == 2 || l.spec_code() == 3
                || l.spec_code() == 4 || l.spec_code() == 64 || l.spec_code() == 95
                || l.spec_code() == 96 || l.spec_code() == 128 || l.spec_code() == 192
                || l.spec_code() == 193 || l.spec_code() == 194 || l.spec_code() == 200,
    {
    }
}

/// The number format of a tensor's elements. Only formats whose elements
/// fill whole bytes are listed: they are the ones a buffer can be sized for.
#[derive(Debug, Clone, Copy, PartialEq, Eq, Structural)]
pub enum Precision {
    /// 32-bit floating point.
    FP32,
    /// 16-bit floating point.
    FP16,
    /// 16-bit signed fixed point.
    Q78,
    I16,
    U8,
    I8,
    U16,
    I32,
    I64,
}

impl Precision {
    /// The number that stands for this precision across the boundary.
    pub open spec fn spec_code(self) -> u32 {
        match self {
            Precision::FP32 => 10,
            Precision::FP16 => 11,
            Precision::Q78 => 20,
            Precision::I16 => 30,
            Precision::U8 => 40,
            Precision::I8 => 50,
            Precision::U16 => 60,
            Precision::I32 => 70,
            Precision::I64 => 72,
        }
    }

    /// The precision that `code` stands for, if any.
    pub open spec fn spec_from_code(code: u32) -> Option<Precision> {
        if exists|p: Precision| p.spec_code() == code {
            Some(choose|p: Precision| p.spec_code() == code)
        } else {
            None
        }
    }

    /// The number of bytes that one element takes.
    pub open spec fn spec_width(self) -> nat {
        match self {
            Precision::U8 | Precision::I8 => 1,
            Precision::FP16 | Precision::Q78 | Precision::I16 | Precision::U16 => 2,
            Precision::FP32 | Precision::I32 => 4,
            Precision::I64 => 8,
        }
    }

    pub fn code(self) -> (c: u32)
        ensures
            c == self.spec_code(),
    {
        match self {
            Precision::FP32 => 10,
            Precision::FP16 => 11,
            Precision::Q78 => 20,
            Precision::I16 => 30,
            Precision::U8 => 40,
            Precision::I8 => 50,
            Precision::U16 => 60,
            Precision::I32 => 70,
            Precision::I64 => 72,
        }
    }

    /// Reads a precision from its number: `Some` exactly for the numbers
    /// that stand for a precision.
    pub fn from_code(code: u32) -> (r: Option<Precision>)
        ensures
            r == Self::spec_from_code(code),
            r matches Some(p) ==> p.spec_code() == code,
            r is None ==> forall|p: Precision| p.spec_code() != code,
    {
        let r = if code == 10 {
            Some(Precision::FP32)
        } else if code == 11 {
            Some(Precision::FP16)
        } else if code == 20 {
            Some(Precision::Q78)
        } else if code == 30 {
            Some(Precision::I16)
        } else if code == 40 {
            Some(Precision::U8)
        } else if code == 50 {
            Some(Precision::I8)
        } else if code == 60 {
            Some(Precision::U16)
        } else if code == 70 {
            Some(Precision::I32)
        } else if code == 72 {
            Some(Precision::I64)
        } else {
            None
        };
        proof {
            match r {
                Some(p) => {
                    assert(p.spec_code() == code);
                    Self::code_is_injective(p, choose|q: Precision| q.spec_code() == code);
                },
                None => {
                    assert forall|p: Precision| p.spec_code() != code by {
                        Self::code_is_listed(p);
                    }
                },
            }
        }
        r
    }

    /// The number of bytes that one element takes: 1, 2, 4 or 8.
    pub fn width(self) -> (w: usize)
        ensures
            w == self.spec_width(),
            1 <= w <= 8,
    {
        match self {
            Precision::U8 | Precision::I8 => 1,
            Precision::FP16 | Precision::Q78 | Precision::I16 | Precision::U16 => 2,
            Precision::FP32 | Precision::I32 => 4,
            Precision::I64 => 8,
        }
    }

    /// No two precisions share a number.
    pub proof fn code_is_injective(a: Precision, b: Precision)
        ensures
            a.spec_code() == b.spec_code() ==> a == b,
    {
    }

    /// A precision's number reads back as that precision.
    pub proof fn code_round_trip(p: Precision)
        ensures
            Self::spec_from_code(p.spec_code()) == Some(p),
    {
        Self::code_is_injective(p, choose|q: Precision| q.spec_code() == p.spec_code());
    }

    proof fn code_is_listed(p: Precision)
        ensures
            p.spec_code() == 10 || p.spec_code() == 11 || p.spec_code() == 20 || p.spec_code()
                == 30 || p.spec_code() == 40 || p.spec_code() == 50 || p.spec_code() == 60
                || p.spec_code() == 70 || p.spec_code() == 72,
    {
    }
}

/// How the engine resizes an input that does not have the network's size.
#[derive(Debug, Clone, Copy, PartialEq, Eq, Structural)]
pub enum ResizeAlgorithm {
    NoResize,
    Bilinear,
    Area,
}

impl ResizeAlgorithm {
    /// The number that stands for this algorithm across the boundary.
    pub open spec fn spec_code(self) -> u32 {
        match self {
            ResizeAlgorithm::NoResize => 0,
            ResizeAlgorithm::Bilinear => 1,
            ResizeAlgorithm::Area => 2,
        }
    }

    pub fn code(self) -> (c: u32)
        ensures
            c == self.spec_code(),
    {
        match self {
            ResizeAlgorithm::NoResize => 0,
            ResizeAlgorithm::Bilinear => 1,
            ResizeAlgorithm::Area => 2,
        }
    }
}

} // verus!
