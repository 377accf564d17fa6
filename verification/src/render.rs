//! The draw-op executor: resolves a built draw operation into one concrete
//! rasterizer command, or decides that nothing is drawn.
//!
//! A pattern paint needs its tile rendered first; rendering the tile is a
//! recursive invocation of the whole pipeline, so the caller performs it
//! and passes the outcome in. When tile preparation failed the operation
//! is silently skipped: no command is produced, so the target pixels stay
//! untouched. No clip mask is ever applied at this layer.

use vstd::prelude::*;
use std::rc::Rc;
use crate::geom::{rc_clone, PathGeometry, Transform};
use crate::paint::{Paint, Shader};
use crate::path::{FillPath, StrokePath};
use crate::raster::{BlendMode, FillRule, FilterQuality, SpreadMode, Stroke, StrokeDash};
use crate::style::Opacity;

verus! {

/// The outcome of preparing a pattern tile: the transform that positions
/// the rendered tile. The tile's pixels stay with the caller that rendered
/// them.
#[derive(Clone, Copy, PartialEq, Eq, Structural, Debug)]
pub struct PreparedTile {
    pub transform: Transform,
}

/// The concrete shading source handed to the rasterizer.
#[derive(Clone, PartialEq, Debug)]
pub enum ResolvedShader {
    /// A precomputed shading function, reused as it is.
    Direct(Shader),
    /// A freshly rendered pattern tile, repeated and bicubic-filtered,
    /// positioned by the tile transform and composited with the pattern's
    /// opacity.
    Tile { spread: SpreadMode, quality: FilterQuality, opacity: Opacity, transform: Transform },
}

/// Rasterizer paint attributes for one command.
#[derive(Clone, PartialEq, Debug)]
pub struct RasterPaint {
    pub shader: ResolvedShader,
    pub anti_alias: bool,
    pub blend_mode: BlendMode,
}

/// One invocation of the rasterizer's fill primitive.
#[derive(Clone, PartialEq, Debug)]
pub struct FillCommand {
    pub path: Rc<PathGeometry>,
    pub paint: RasterPaint,
    pub rule: FillRule,
    pub transform: Transform,
}

/// One invocation of the rasterizer's stroke primitive.
#[derive(Clone, PartialEq, Debug)]
pub struct StrokeCommand {
    pub path: Rc<PathGeometry>,
    pub paint: RasterPaint,
    pub stroke: Stroke,
    pub transform: Transform,
}

/// The shading source an operation's paint resolves to: a shader is used
/// directly; a pattern needs a prepared tile and yields nothing without
/// one.
pub open spec fn shader_spec(paint: Paint, tile: Option<PreparedTile>) -> Option<ResolvedShader> {
    match paint {
        Paint::Shader(s) => Some(ResolvedShader::Direct(s)),
        Paint::Pattern(p) => match tile {
            Some(t) => Some(
                (ResolvedShader::Tile {
                    spread: SpreadMode::Repeat,
                    quality: FilterQuality::Bicubic,
                    opacity: p.opacity,
                    transform: t.transform,
                }),
            ),
            None => None,
        },
    }
}

/// The fill command `render_fill_path` produces.
pub open spec fn fill_command_spec(
    path: FillPath,
    blend_mode: BlendMode,
    transform: Transform,
    tile: Option<PreparedTile>,
) -> Option<FillCommand> {
    match shader_spec(path.paint, tile) {
        Some(shader) => Some(
            (FillCommand {
                path: path.path,
                paint: RasterPaint { shader, anti_alias: path.anti_alias, blend_mode },
                rule: path.rule,
                transform,
            }),
        ),
        None => None,
    }
}

/// The stroke command `render_stroke_path` produces.
pub open spec fn stroke_command_spec(
    path: StrokePath,
    blend_mode: BlendMode,
    transform: Transform,
    tile: Option<PreparedTile>,
) -> Option<StrokeCommand> {
    match shader_spec(path.paint, tile) {
        Some(shader) => Some(
            (StrokeCommand {
                path: path.path,
                paint: RasterPaint { shader, anti_alias: path.anti_alias, blend_mode },
                stroke: path.stroke,
                transform,
            }),
        ),
        None => None,
    }
}

fn duplicate_shader(s: &Shader) -> (r: Shader)
    ensures
        r == *s,
{
    match s {
        Shader::Solid { color, opacity } => Shader::Solid { color: *color, opacity: *opacity },
        Shader::Gradient { gradient, opacity } => Shader::Gradient {
            gradient: rc_clone(gradient),
            opacity: *opacity,
        },
    }
}

fn duplicate_stroke(s: &Stroke) -> (r: Stroke)
    ensures
        r == *s,
{
    let dash = match &s.dash {
        Some(d) => Some(StrokeDash { array: rc_clone(&d.array), offset: d.offset }),
        None => None,
    };
    Stroke {
        width: s.width,
        miter_limit: s.miter_limit,
        line_cap: s.line_cap,
        line_join: s.line_join,
        dash,
    }
}

fn resolve_shader(paint: &Paint, tile: Option<PreparedTile>) -> (r: Option<ResolvedShader>)
    ensures
        r == shader_spec(*paint, tile),
{
    match paint {
        Paint::Shader(shader) => Some(ResolvedShader::Direct(duplicate_shader(shader))),
        Paint::Pattern(pattern) => match tile {
            Some(t) => Some(
                ResolvedShader::Tile {
                    spread: SpreadMode::Repeat,
                    quality: FilterQuality::Bicubic,
                    opacity: pattern.opacity,
                    transform: t.transform,
                },
            ),
            None => None,
        },
    }
}

/// Resolves a fill draw operation into a fill command.
///
/// Returns `None` exactly when the operation's paint is a pattern and no
/// prepared tile exists: the operation is skipped and nothing is drawn.
pub fn render_fill_path(
    path: &FillPath,
    blend_mode: BlendMode,
    transform: Transform,
    tile: Option<PreparedTile>,
) -> (r: Option<FillCommand>)
    ensures
        r == fill_command_spec(*path, blend_mode, transform, tile),
        r is None <==> path.paint is Pattern && tile is None,
{
    let shader = match resolve_shader(&path.paint, tile) {
        Some(s) => s,
        None => {
            return None;
        },
    };
    let paint = RasterPaint { shader, anti_alias: path.anti_alias, blend_mode };
    Some(
        FillCommand { path: rc_clone(&path.path), paint, rule: path.rule, transform },
    )
}

/// Resolves a stroke draw operation into a stroke command.
///
/// Returns `None` exactly when the operation's paint is a pattern and no
/// prepared tile exists: the operation is skipped and nothing is drawn.
pub fn render_stroke_path(
    path: &StrokePath,
    blend_mode: BlendMode,
    transform: Transform,
    tile: Option<PreparedTile>,
) -> (r: Option<StrokeCommand>)
    ensures
        r == stroke_command_spec(*path, blend_mode, transform, tile),
        r is None <==> path.paint is Pattern && tile is None,
{
    let shader = match resolve_shader(&path.paint, tile) {
        Some(s) => s,
        None => {
            return None;
        },
    };
    let paint = RasterPaint { shader, anti_alias: path.anti_alias, blend_mode };
    Some(
        StrokeCommand {
            path: rc_clone(&path.path),
            paint,
            stroke: duplicate_stroke(&path.stroke),
            transform,
        },
    )
}

} // verus!
