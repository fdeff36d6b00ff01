//! How the color that a fragment shader writes is combined with the color
//! that is already in the target.

use vstd::prelude::*;

verus! {

/// The weight of one side of the blend equation.
#[derive(Copy, Clone, Debug, PartialEq, Eq, Structural)]
pub enum BlendFactor {
    One,
    Zero,
    SrcAlpha,
    OneMinusSrcAlpha,
}

/// The operation that joins the two weighted sides.
#[derive(Copy, Clone, Debug, PartialEq, Eq, Structural)]
pub enum BlendOp {
    Add,
}

/// A blend equation: the weight of the new color, the weight of the color in
/// the target and the operation between them.
#[derive(Clone, Debug, PartialEq, Eq, Structural)]
pub struct Blending {
    src_factor: BlendFactor,
    dst_factor: BlendFactor,
    operation: BlendOp,
}

/// The blend equation of one group of channels, as the driver takes it.
#[derive(Clone, Copy, Debug, PartialEq, Eq, Structural)]
pub struct BlendComponent {
    pub src_factor: BlendFactor,
    pub dst_factor: BlendFactor,
    pub operation: BlendOp,
}

/// The blend equations of a color target: one for the color channels and one
/// for the alpha channel.
#[derive(Clone, Copy, Debug, PartialEq, Eq, Structural)]
pub struct BlendState {
    pub color: BlendComponent,
    pub alpha: BlendComponent,
}

impl Blending {
    /// The weight of the new color.
    pub closed spec fn spec_src_factor(self) -> BlendFactor {
        self.src_factor
    }

    /// The weight of the color in the target.
    pub closed spec fn spec_dst_factor(self) -> BlendFactor {
        self.dst_factor
    }

    /// The operation between the two weighted colors.
    pub closed spec fn spec_operation(self) -> BlendOp {
        self.operation
    }

    /// The equation as one component of a blend state.
    pub open spec fn component(self) -> BlendComponent {
        BlendComponent {
            src_factor: self.spec_src_factor(),
            dst_factor: self.spec_dst_factor(),
            operation: self.spec_operation(),
        }
    }

    pub fn new(src_factor: BlendFactor, dst_factor: BlendFactor, operation: BlendOp) -> (blending: Self)
        ensures
            blending.spec_src_factor() == src_factor,
            blending.spec_dst_factor() == dst_factor,
            blending.spec_operation() == operation,
    {
        Blending { src_factor, dst_factor, operation }
    }

    /// The equation that replaces the color in the target by the new color.
    pub fn constant() -> (blending: Self)
        ensures
            blending.spec_src_factor() == BlendFactor::One,
            blending.spec_dst_factor() == BlendFactor::Zero,
            blending.spec_operation() == BlendOp::Add,
    {
        Blending {
            src_factor: BlendFactor::One,
            dst_factor: BlendFactor::Zero,
            operation: BlendOp::Add,
        }
    }

    /// The three parts of the equation in the order in which the driver takes
    /// them: the weight of the new color, the weight of the color in the
    /// target, the operation.
    pub fn as_wgpu(&self) -> (parts: (BlendFactor, BlendFactor, BlendOp))
        ensures
            parts.0 == self.spec_src_factor(),
            parts.1 == self.spec_dst_factor(),
            parts.2 == self.spec_operation(),
    {
        (self.src_factor, self.dst_factor, self.operation)
    }
}

impl Default for Blending {
    /// Alpha blending: the new color is weighted by its alpha and the color in
    /// the target by what is left.
    fn default() -> (blending: Self)
        ensures
            blending.spec_src_factor() == BlendFactor::SrcAlpha,
            blending.spec_dst_factor() == BlendFactor::OneMinusSrcAlpha,
            blending.spec_operation() == BlendOp::Add,
    {
        Blending {
            src_factor: BlendFactor::SrcAlpha,
            dst_factor: BlendFactor::OneMinusSrcAlpha,
            operation: BlendOp::Add,
        }
    }
}

impl BlendState {
    /// The blend state of an equation: the same equation for the color
    /// channels and for the alpha channel.
    pub open spec fn spec_from(blending: Blending) -> BlendState {
        BlendState { color: blending.component(), alpha: blending.component() }
    }

    /// Uses one equation for the color channels and for the alpha channel.
    pub fn from(blending: Blending) -> (state: Self)
        ensures
            state == Self::spec_from(blending),
            state.color == state.alpha,
    {
        let (src_factor, dst_factor, operation) = blending.as_wgpu();
        BlendState {
            color: BlendComponent { src_factor, dst_factor, operation },
            alpha: BlendComponent { src_factor, dst_factor, operation },
        }
    }
}

} // verus!
