//! The fixed-function states this backend draws with, as plain data: the
//! host's graphics layer creates its state objects from these descriptions
//! and binds them before the first draw of a non-empty frame.

use crate::coords::UNIT;
use crate::mesh::Color;
use vstd::prelude::*;

verus! {

/// A blend factor of the compositing equation.
#[derive(Clone, Copy, PartialEq, Eq, Debug)]
pub enum BlendFactor {
    One,
    SourceAlpha,
    InverseSourceAlpha,
}

/// A blend state description: how a drawn fragment combines with what the
/// render target already holds.
#[derive(Clone, Copy, PartialEq, Eq, Debug)]
pub struct BlendStateDesc {
    pub enabled: bool,
    pub src_color: BlendFactor,
    pub dst_color: BlendFactor,
    pub src_alpha: BlendFactor,
    pub dst_alpha: BlendFactor,
    pub write_mask_all: bool,
}

/// The standard "over" alpha compositing: source-alpha against its inverse
/// for color, one against inverse source-alpha for the alpha channel, with
/// the full write mask.
pub fn alpha_over_blend() -> (d: BlendStateDesc)
    ensures
        d == (BlendStateDesc {
            enabled: true,
            src_color: BlendFactor::SourceAlpha,
            dst_color: BlendFactor::InverseSourceAlpha,
            src_alpha: BlendFactor::One,
            dst_alpha: BlendFactor::InverseSourceAlpha,
            write_mask_all: true,
        }),
{
    BlendStateDesc {
        enabled: true,
        src_color: BlendFactor::SourceAlpha,
        dst_color: BlendFactor::InverseSourceAlpha,
        src_alpha: BlendFactor::One,
        dst_alpha: BlendFactor::InverseSourceAlpha,
        write_mask_all: true,
    }
}

/// A rasterizer state description.
#[derive(Clone, Copy, PartialEq, Eq, Debug)]
pub struct RasterStateDesc {
    pub cull: bool,
    pub solid_fill: bool,
    pub scissor_enabled: bool,
}

/// The rasterizer state the GUI pass needs: no culling, solid fill, and
/// scissoring enabled so each mesh clips to its own rectangle.
pub fn gui_raster_state() -> (d: RasterStateDesc)
    ensures
        d == (RasterStateDesc { cull: false, solid_fill: true, scissor_enabled: true }),
{
    RasterStateDesc { cull: false, solid_fill: true, scissor_enabled: true }
}

/// A texture sampler description.
#[derive(Clone, Copy, PartialEq, Eq, Debug)]
pub struct SamplerDesc {
    pub linear_filter: bool,
    pub border_addressing: bool,
    pub border_color: Color,
}

/// The sampler bound at slot zero for the GUI pass: linear filtering,
/// border addressing on every axis, with an opaque white border.
pub fn gui_sampler() -> (d: SamplerDesc)
    ensures
        d == (SamplerDesc {
            linear_filter: true,
            border_addressing: true,
            border_color: Color {
                r: UNIT as i32,
                g: UNIT as i32,
                b: UNIT as i32,
                a: UNIT as i32,
            },
        }),
{
    SamplerDesc {
        linear_filter: true,
        border_addressing: true,
        border_color: Color { r: UNIT as i32, g: UNIT as i32, b: UNIT as i32, a: UNIT as i32 },
    }
}

} // verus!
