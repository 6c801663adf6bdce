//! Line styles of the drawing context.
//!
//! A line style combines a dash pattern (solid, dashed, dotted, the two
//! dash-dot mixes, invisible, or a user-given pattern), a thickness, and
//! two flag groups packed into the same style word: the end-cap shape in
//! bits 8..12 and the join shape in bits 12..16.  The numeric encoding is
//! the one the native pen interface speaks.

use vstd::prelude::*;

verus! {

/// The bit mask of the dash-pattern selector inside a style word.
pub const STYLE_MASK: u32 = 0x0000000F;

/// The bit mask of the end-cap selector inside a style word.
pub const ENDCAP_MASK: u32 = 0x00000F00;

/// The bit mask of the join selector inside a style word.
pub const JOIN_MASK: u32 = 0x0000F000;

/// The shape of a line's end points.
#[derive(Debug, Clone, Copy, PartialEq, Eq, Hash, Structural)]
pub enum EndCapStyle {
    /// A half circle of the line's width.
    Round,
    /// A square of the line's width.
    Square,
    /// The bare end point, with no extension.
    Flat,
}

impl EndCapStyle {
    /// The flag bits of this end-cap shape inside a style word.
    pub open spec fn spec_bits(self) -> u32 {
        match self {
            EndCapStyle::Round => 0x000,
            EndCapStyle::Square => 0x100,
            EndCapStyle::Flat => 0x200,
        }
    }

    /// The flag bits of this end-cap shape inside a style word.
    pub fn bits(&self) -> (v: u32)
        ensures
            v == self.spec_bits(),
    {
        match self {
            EndCapStyle::Round => 0x000,
            EndCapStyle::Square => 0x100,
            EndCapStyle::Flat => 0x200,
        }
    }
}

/// The shape of the corner where two lines meet.
#[derive(Debug, Clone, Copy, PartialEq, Eq, Hash, Structural)]
pub enum JoinStyle {
    /// A smooth arc.
    Round,
    /// A cut-off corner.
    Bevel,
    /// A sharp corner.
    Miter,
}

impl JoinStyle {
    /// The flag bits of this join shape inside a style word.
    pub open spec fn spec_bits(self) -> u32 {
        match self {
            JoinStyle::Round => 0x0000,
            JoinStyle::Bevel => 0x1000,
            JoinStyle::Miter => 0x2000,
        }
    }

    /// The flag bits of this join shape inside a style word.
    pub fn bits(&self) -> (v: u32)
        ensures
            v == self.spec_bits(),
    {
        match self {
            JoinStyle::Round => 0x0000,
            JoinStyle::Bevel => 0x1000,
            JoinStyle::Miter => 0x2000,
        }
    }
}

/// The dash pattern of a line, each variant carrying the flag bits (end
/// cap and join) of its style word.
#[derive(Debug, Clone, PartialEq, Eq, Hash)]
pub enum InnerStyle {
    /// An unbroken line.
    Solid(u32),
    /// A dashed line.
    Dashed(u32),
    /// A dotted line.
    Dotted(u32),
    /// Alternating dashes and dots.
    DashDot(u32),
    /// Dashes with double dots.
    DashDotDot(u32),
    /// An invisible line.
    Null(u32),
    /// A user-given pattern of stroke and gap lengths.
    User {
        /// The flag bits of the style word.
        style: u32,
        /// Alternating stroke and gap lengths.
        user_style: Vec<i32>,
    },
}

/// The flag bits carried by a dash pattern.
pub open spec fn inner_bits(s: InnerStyle) -> u32 {
    match s {
        InnerStyle::Solid(v) => v,
        InnerStyle::Dashed(v) => v,
        InnerStyle::Dotted(v) => v,
        InnerStyle::DashDot(v) => v,
        InnerStyle::DashDotDot(v) => v,
        InnerStyle::Null(v) => v,
        InnerStyle::User { style, .. } => style,
    }
}

/// The dash-pattern selector of a pattern inside a style word.
pub open spec fn inner_base(s: InnerStyle) -> u32 {
    match s {
        InnerStyle::Solid(_) => 0,
        InnerStyle::Dashed(_) => 1,
        InnerStyle::Dotted(_) => 2,
        InnerStyle::DashDot(_) => 3,
        InnerStyle::DashDotDot(_) => 4,
        InnerStyle::Null(_) => 5,
        InnerStyle::User { .. } => 7,
    }
}

/// The same dash pattern with its flag bits replaced.
pub open spec fn inner_with_bits(s: InnerStyle, v: u32) -> InnerStyle {
    match s {
        InnerStyle::Solid(_) => InnerStyle::Solid(v),
        InnerStyle::Dashed(_) => InnerStyle::Dashed(v),
        InnerStyle::Dotted(_) => InnerStyle::Dotted(v),
        InnerStyle::DashDot(_) => InnerStyle::DashDot(v),
        InnerStyle::DashDotDot(_) => InnerStyle::DashDotDot(v),
        InnerStyle::Null(_) => InnerStyle::Null(v),
        InnerStyle::User { user_style, .. } => InnerStyle::User { style: v, user_style },
    }
}

/// A well-formed style word: only end-cap and join bits are set, and each
/// group holds one of its named shapes.
pub open spec fn wf_bits(v: u32) -> bool {
    &&& v & !(ENDCAP_MASK | JOIN_MASK) == 0
    &&& (v & ENDCAP_MASK == 0x000 || v & ENDCAP_MASK == 0x100 || v & ENDCAP_MASK == 0x200)
    &&& (v & JOIN_MASK == 0x0000 || v & JOIN_MASK == 0x1000 || v & JOIN_MASK == 0x2000)
}

/// A user pattern flattened from stroke/gap pairs: each pair contributes
/// its stroke length then its gap length.
pub open spec fn flatten_pairs(s: Seq<(i32, i32)>) -> Seq<i32>
    decreases s.len(),
{
    if s.len() == 0 {
        Seq::empty()
    } else {
        flatten_pairs(s.drop_last()) + seq![s.last().0, s.last().1]
    }
}

/// A complete line style: dash pattern, flag bits and thickness.
#[derive(Debug, Clone, PartialEq, Eq, Hash)]
pub struct LineStyle {
    style: InnerStyle,
    thickness: i32,
}

impl LineStyle {
    /// The dash pattern with its flag bits.
    pub closed spec fn spec_inner(self) -> InnerStyle {
        self.style
    }

    /// The thickness in pixels.
    pub closed spec fn spec_thickness(self) -> i32 {
        self.thickness
    }

    /// A well-formed line style: its flag bits hold nothing but one end
    /// cap and one join shape.
    pub open spec fn wf(self) -> bool {
        wf_bits(inner_bits(self.spec_inner()))
    }

    /// An unbroken line of the given thickness.
    pub fn solid(thickness: i32) -> (l: LineStyle)
        ensures
            l.spec_inner() == InnerStyle::Solid(0),
            l.spec_thickness() == thickness,
            l.wf(),
    {
        proof {
            lemma_zero_bits_wf();
        }
        LineStyle { style: InnerStyle::Solid(0), thickness }
    }

    /// A dashed line of the given thickness.
    pub fn dashed(thickness: i32) -> (l: LineStyle)
        ensures
            l.spec_inner() == InnerStyle::Dashed(0),
            l.spec_thickness() == thickness,
            l.wf(),
    {
        proof {
            lemma_zero_bits_wf();
        }
        LineStyle { style: InnerStyle::Dashed(0), thickness }
    }

    /// A dotted line of the given thickness.
    pub fn dotted(thickness: i32) -> (l: LineStyle)
        ensures
            l.spec_inner() == InnerStyle::Dotted(0),
            l.spec_thickness() == thickness,
            l.wf(),
    {
        proof {
            lemma_zero_bits_wf();
        }
        LineStyle { style: InnerStyle::Dotted(0), thickness }
    }

    /// A dash-dot line of the given thickness.
    pub fn dash_dot(thickness: i32) -> (l: LineStyle)
        ensures
            l.spec_inner() == InnerStyle::DashDot(0),
            l.spec_thickness() == thickness,
            l.wf(),
    {
        proof {
            lemma_zero_bits_wf();
        }
        LineStyle { style: InnerStyle::DashDot(0), thickness }
    }

    /// A dash-dot-dot line of the given thickness.
    pub fn dash_dot_dot(thickness: i32) -> (l: LineStyle)
        ensures
            l.spec_inner() == InnerStyle::DashDotDot(0),
            l.spec_thickness() == thickness,
            l.wf(),
    {
        proof {
            lemma_zero_bits_wf();
        }
        LineStyle { style: InnerStyle::DashDotDot(0), thickness }
    }

    /// An invisible line of the given thickness.
    pub fn null(thickness: i32) -> (l: LineStyle)
        ensures
            l.spec_inner() == InnerStyle::Null(0),
            l.spec_thickness() == thickness,
            l.wf(),
    {
        proof {
            lemma_zero_bits_wf();
        }
        LineStyle { style: InnerStyle::Null(0), thickness }
    }

    /// A user-patterned line of the given thickness.
    pub fn user(thickness: i32, user_style: Vec<i32>) -> (l: LineStyle)
        ensures
            l.spec_inner() == (InnerStyle::User { style: 0, user_style }),
            l.spec_thickness() == thickness,
            l.wf(),
    {
        proof {
            lemma_zero_bits_wf();
        }
        LineStyle { style: InnerStyle::User { style: 0, user_style }, thickness }
    }


    /// The line style read back from the pen interface: the dash-pattern
    /// selector sits in the low bits of the style word and everything
    /// else is flag bits; the user pattern applies only to user-styled
    /// lines.  No pattern is named by selector 6 or anything above 7.
    pub fn from_device(style_bits: u32, thickness: i32, user_style: Vec<i32>) -> (r: Option<
        LineStyle,
    >)
        ensures
            ({
                let major = style_bits & STYLE_MASK;
                let flags = style_bits & !STYLE_MASK;
                &&& (major == 0 ==> (r matches Some(l) && l.spec_inner() == InnerStyle::Solid(
                    flags,
                ) && l.spec_thickness() == thickness))
                &&& (major == 1 ==> (r matches Some(l) && l.spec_inner() == InnerStyle::Dashed(
                    flags,
                ) && l.spec_thickness() == thickness))
                &&& (major == 2 ==> (r matches Some(l) && l.spec_inner() == InnerStyle::Dotted(
                    flags,
                ) && l.spec_thickness() == thickness))
                &&& (major == 3 ==> (r matches Some(l) && l.spec_inner() == InnerStyle::DashDot(
                    flags,
                ) && l.spec_thickness() == thickness))
                &&& (major == 4 ==> (r matches Some(l) && l.spec_inner()
                    == InnerStyle::DashDotDot(flags) && l.spec_thickness() == thickness))
                &&& (major == 5 ==> (r matches Some(l) && l.spec_inner() == InnerStyle::Null(
                    flags,
                ) && l.spec_thickness() == thickness))
                &&& (major == 7 ==> (r matches Some(l) && l.spec_inner() == (InnerStyle::User {
                    style: flags,
                    user_style,
                }) && l.spec_thickness() == thickness))
                &&& (major == 6 || major > 7 ==> r is None)
            }),
    {
        let major = style_bits & STYLE_MASK;
        let flags = style_bits & !STYLE_MASK;
        if major == 0 {
            Some(LineStyle { style: InnerStyle::Solid(flags), thickness })
        } else if major == 1 {
            Some(LineStyle { style: InnerStyle::Dashed(flags), thickness })
        } else if major == 2 {
            Some(LineStyle { style: InnerStyle::Dotted(flags), thickness })
        } else if major == 3 {
            Some(LineStyle { style: InnerStyle::DashDot(flags), thickness })
        } else if major == 4 {
            Some(LineStyle { style: InnerStyle::DashDotDot(flags), thickness })
        } else if major == 5 {
            Some(LineStyle { style: InnerStyle::Null(flags), thickness })
        } else if major == 7 {
            Some(LineStyle { style: InnerStyle::User { style: flags, user_style }, thickness })
        } else {
            None
        }
    }

    /// The flag bits of the style word.
    fn bits(&self) -> (v: u32)
        ensures
            v == inner_bits(self.spec_inner()),
    {
        match &self.style {
            InnerStyle::Solid(v) => *v,
            InnerStyle::Dashed(v) => *v,
            InnerStyle::Dotted(v) => *v,
            InnerStyle::DashDot(v) => *v,
            InnerStyle::DashDotDot(v) => *v,
            InnerStyle::Null(v) => *v,
            InnerStyle::User { style, .. } => *style,
        }
    }

    /// The complete style word of the pen interface: the dash-pattern
    /// selector combined with the flag bits.
    pub fn style_value(&self) -> (v: i32)
        requires
            self.wf(),
        ensures
            v >= 0,
            v as u32 == inner_bits(self.spec_inner()) | inner_base(self.spec_inner()),
    {
        let bits = self.bits();
        let base: u32 = match &self.style {
            InnerStyle::Solid(_) => 0,
            InnerStyle::Dashed(_) => 1,
            InnerStyle::Dotted(_) => 2,
            InnerStyle::DashDot(_) => 3,
            InnerStyle::DashDotDot(_) => 4,
            InnerStyle::Null(_) => 5,
            InnerStyle::User { .. } => 7,
        };
        proof {
            let b = inner_bits(self.spec_inner());
            assert(wf_bits(b) && base <= 7 ==> (b | base) < 0x8000_0000) by (bit_vector);
            assert((b | base) as i32 >= 0 && ((b | base) as i32) as u32 == (b | base))
                by (bit_vector)
                requires
                    (b | base) < 0x8000_0000,
            ;
        }
        (bits | base) as i32
    }

    /// Replaces the end-cap shape, leaving the join shape, the dash
    /// pattern and the thickness as they are.
    pub fn set_cap_style(&mut self, cap_style: EndCapStyle)
        requires
            old(self).wf(),
        ensures
            final(self).wf(),
            final(self).spec_thickness() == old(self).spec_thickness(),
            final(self).spec_inner() == inner_with_bits(
                old(self).spec_inner(),
                (inner_bits(old(self).spec_inner()) & !ENDCAP_MASK) | cap_style.spec_bits(),
            ),
    {
        let b = cap_style.bits();
        let mut taken = InnerStyle::Solid(0);
        core::mem::swap(&mut self.style, &mut taken);
        proof {
            let v = inner_bits(old(self).spec_inner());
            let c = cap_style.spec_bits();
            assert(wf_bits(v) && (c == 0x000 || c == 0x100 || c == 0x200) ==> wf_bits(
                (v & !ENDCAP_MASK) | c,
            )) by (bit_vector);
        }
        self.style = match taken {
            InnerStyle::Solid(v) => InnerStyle::Solid((v & !ENDCAP_MASK) | b),
            InnerStyle::Dashed(v) => InnerStyle::Dashed((v & !ENDCAP_MASK) | b),
            InnerStyle::Dotted(v) => InnerStyle::Dotted((v & !ENDCAP_MASK) | b),
            InnerStyle::DashDot(v) => InnerStyle::DashDot((v & !ENDCAP_MASK) | b),
            InnerStyle::DashDotDot(v) => InnerStyle::DashDotDot((v & !ENDCAP_MASK) | b),
            InnerStyle::Null(v) => InnerStyle::Null((v & !ENDCAP_MASK) | b),
            InnerStyle::User { style, user_style } => InnerStyle::User {
                style: (style & !ENDCAP_MASK) | b,
                user_style,
            },
        };
    }

    /// The current end-cap shape.
    pub fn get_cap_style(&self) -> (cap: EndCapStyle)
        requires
            self.wf(),
        ensures
            cap.spec_bits() == inner_bits(self.spec_inner()) & ENDCAP_MASK,
    {
        let group = self.bits() & ENDCAP_MASK;
        if group == 0x100 {
            EndCapStyle::Square
        } else if group == 0x200 {
            EndCapStyle::Flat
        } else {
            EndCapStyle::Round
        }
    }

    /// Replaces the join shape, leaving the end cap, the dash pattern and
    /// the thickness as they are.
    pub fn set_join_style(&mut self, join_style: JoinStyle)
        requires
            old(self).wf(),
        ensures
            final(self).wf(),
            final(self).spec_thickness() == old(self).spec_thickness(),
            final(self).spec_inner() == inner_with_bits(
                old(self).spec_inner(),
                (inner_bits(old(self).spec_inner()) & !JOIN_MASK) | join_style.spec_bits(),
            ),
    {
        let b = join_style.bits();
        let mut taken = InnerStyle::Solid(0);
        core::mem::swap(&mut self.style, &mut taken);
        proof {
            let v = inner_bits(old(self).spec_inner());
            let c = join_style.spec_bits();
            assert(wf_bits(v) && (c == 0x0000 || c == 0x1000 || c == 0x2000) ==> wf_bits(
                (v & !JOIN_MASK) | c,
            )) by (bit_vector);
        }
        self.style = match taken {
            InnerStyle::Solid(v) => InnerStyle::Solid((v & !JOIN_MASK) | b),
            InnerStyle::Dashed(v) => InnerStyle::Dashed((v & !JOIN_MASK) | b),
            InnerStyle::Dotted(v) => InnerStyle::Dotted((v & !JOIN_MASK) | b),
            InnerStyle::DashDot(v) => InnerStyle::DashDot((v & !JOIN_MASK) | b),
            InnerStyle::DashDotDot(v) => InnerStyle::DashDotDot((v & !JOIN_MASK) | b),
            InnerStyle::Null(v) => InnerStyle::Null((v & !JOIN_MASK) | b),
            InnerStyle::User { style, user_style } => InnerStyle::User {
                style: (style & !JOIN_MASK) | b,
                user_style,
            },
        };
    }

    /// The current join shape.
    pub fn get_join_style(&self) -> (join: JoinStyle)
        requires
            self.wf(),
        ensures
            join.spec_bits() == inner_bits(self.spec_inner()) & JOIN_MASK,
    {
        let group = self.bits() & JOIN_MASK;
        if group == 0x1000 {
            JoinStyle::Bevel
        } else if group == 0x2000 {
            JoinStyle::Miter
        } else {
            JoinStyle::Round
        }
    }

    /// The thickness in pixels.
    pub fn thickness(&self) -> (t: i32)
        ensures
            t == self.spec_thickness(),
    {
        self.thickness
    }

    /// Replaces the thickness, leaving the dash pattern as it is.
    pub fn set_thickness(&mut self, thickness: i32)
        ensures
            final(self).spec_thickness() == thickness,
            final(self).spec_inner() == old(self).spec_inner(),
    {
        self.thickness = thickness;
    }

    /// The user pattern of a user-styled line, `None` for any other dash
    /// pattern.
    pub fn user_style(&self) -> (r: Option<&[i32]>)
        ensures
            (self.spec_inner() matches InnerStyle::User { user_style, .. } ==> (
            r matches Some(sl) && sl@ == user_style@)),
            !(self.spec_inner() is User) ==> r is None,
    {
        match &self.style {
            InnerStyle::User { user_style, .. } => Some(user_style.as_slice()),
            _ => None,
        }
    }

    /// Replaces the pattern of a user-styled line with the given stroke
    /// and gap pairs, flattened in order; any other dash pattern is left
    /// as it is.
    pub fn set_user_style(&mut self, style: Vec<(i32, i32)>)
        ensures
            final(self).spec_thickness() == old(self).spec_thickness(),
            (old(self).spec_inner() matches InnerStyle::User { style: sb, .. } ==> (
            final(self).spec_inner() matches InnerStyle::User { style: fb, user_style: fv }
                && fb == sb && fv@ == flatten_pairs(style@))),
            !(old(self).spec_inner() is User) ==> final(self).spec_inner() == old(
                self,
            ).spec_inner(),
    {
        let is_user = match &self.style {
            InnerStyle::User { .. } => true,
            _ => false,
        };
        if !is_user {
            return ;
        }
        let n = style.len();
        let mut flat: Vec<i32> = Vec::new();
        let mut i: usize = 0;
        while i < n
            invariant
                n == style@.len(),
                0 <= i <= n,
                flat@ == flatten_pairs(style@.take(i as int)),
            decreases n - i,
        {
            let (a, b) = style[i];
            flat.push(a);
            flat.push(b);
            proof {
                assert(style@.take(i + 1).drop_last() =~= style@.take(i as int));
                assert(style@.take(i + 1).last() == style@[i as int]);
            }
            i += 1;
        }
        proof {
            assert(style@.take(n as int) =~= style@);
        }
        let mut taken = InnerStyle::Solid(0);
        core::mem::swap(&mut self.style, &mut taken);
        self.style = match taken {
            InnerStyle::User { style: sb, user_style: _ } => InnerStyle::User {
                style: sb,
                user_style: flat,
            },
            other => other,
        };
    }
}

/// A style word of zero is well formed.
proof fn lemma_zero_bits_wf()
    ensures
        wf_bits(0),
{
    assert(wf_bits(0)) by (bit_vector);
}

} // verus!
