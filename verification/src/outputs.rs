//! Bookkeeping for the displays the server advertises.
//!
//! An output is populated by a sequence of property events and becomes
//! ready for rendering once a `done` event arrives with a mode in place.
//! The display handle itself stays outside the library; everything the
//! engine reads — geometry, mode, scale — is held here as plain values.

use vstd::prelude::*;

use crate::ScaledMode;

verus! {

/// A display mode: pixel size and refresh rate in millihertz, with the
/// advertisement's raw flag bits.
#[derive(Debug, Clone, Copy, PartialEq, Eq, Structural, Hash)]
pub struct Mode {
    pub flags: u32,
    pub width: i32,
    pub height: i32,
    pub refresh: i32,
}

/// An output's position and identity as advertised by the server.
#[derive(Debug)]
pub struct Geometry {
    pub x: i32,
    pub y: i32,
    pub make: String,
    pub model: String,
}

impl Clone for Geometry {
    fn clone(&self) -> (r: Self)
        ensures
            r == *self,
    {
        Geometry { x: self.x, y: self.y, make: self.make.clone(), model: self.model.clone() }
    }
}

/// One advertised display: its numeric id and the properties accumulated
/// from the server's events.  The scale factor defaults to one.
#[derive(Debug)]
pub struct Output {
    geometry: Option<Geometry>,
    mode: Option<Mode>,
    scale: i32,
    id: u32,
}

/// A property event for one output, as plain values.
#[derive(Debug)]
pub enum OutputEvent {
    Geometry { x: i32, y: i32, make: String, model: String },
    Mode { flags: u32, width: i32, height: i32, refresh: i32 },
    Scale { factor: i32 },
    Done,
}

impl Output {
    pub closed spec fn spec_geometry(&self) -> Option<Geometry> {
        self.geometry
    }

    pub closed spec fn spec_mode(&self) -> Option<Mode> {
        self.mode
    }

    pub closed spec fn spec_scale(&self) -> int {
        self.scale as int
    }

    pub closed spec fn spec_id(&self) -> int {
        self.id as int
    }

    /// An output can be rendered to once a mode has been advertised.
    pub open spec fn spec_ready(&self) -> bool {
        self.spec_mode() is Some
    }

    /// A fresh record for a newly advertised output: nothing known yet,
    /// scale one.
    pub fn new(id: u32) -> (o: Output)
        ensures
            o.spec_geometry() is None,
            o.spec_mode() is None,
            o.spec_scale() == 1,
            o.spec_id() == id,
    {
        Output { geometry: None, mode: None, scale: 1, id }
    }

    pub fn geometry(&self) -> (g: Option<&Geometry>)
        ensures
            match g {
                Some(v) => self.spec_geometry() == Some(*v),
                None => self.spec_geometry() is None,
            },
    {
        self.geometry.as_ref()
    }

    pub fn mode(&self) -> (m: Option<&Mode>)
        ensures
            match m {
                Some(v) => self.spec_mode() == Some(*v),
                None => self.spec_mode() is None,
            },
    {
        self.mode.as_ref()
    }

    pub fn scale(&self) -> (s: i32)
        ensures
            s as int == self.spec_scale(),
    {
        self.scale
    }

    pub fn id(&self) -> (i: u32)
        ensures
            i as int == self.spec_id(),
    {
        self.id
    }

    /// The output's refresh rate in millihertz, once a mode is known.
    pub fn refresh_rate(&self) -> (r: Option<i32>)
        ensures
            match r {
                Some(v) => self.spec_mode() matches Some(m) && m.refresh == v,
                None => self.spec_mode() is None,
            },
    {
        match &self.mode {
            Some(m) => Some(m.refresh),
            None => None,
        }
    }
}

impl Clone for Output {
    fn clone(&self) -> (r: Self)
        ensures
            r.spec_geometry() is Some <==> self.spec_geometry() is Some,
            r.spec_geometry() matches Some(g) ==> self.spec_geometry() == Some(g),
            r.spec_mode() == self.spec_mode(),
            r.spec_scale() == self.spec_scale(),
            r.spec_id() == self.spec_id(),
            r.spec_ready() == self.spec_ready(),
    {
        let geometry = match &self.geometry {
            Some(g) => Some(g.clone()),
            None => None,
        };
        Output { geometry, mode: self.mode, scale: self.scale, id: self.id }
    }
}

/// Folds one property event into the output record.  Returns whether the
/// event was `done`, upon which the output is forwarded to the worker as an
/// addition (or refresh) — the caller sends that message.
pub fn handle_output_events(output: &mut Output, event: OutputEvent) -> (emit: bool)
    ensures
        emit == (event is Done),
        final(output).spec_id() == old(output).spec_id(),
        match event {
            OutputEvent::Geometry { x, y, make, model } => {
                &&& final(output).spec_geometry() matches Some(g) && g.x == x && g.y == y
                    && g.make@ == make@ && g.model@ == model@
                &&& final(output).spec_mode() == old(output).spec_mode()
                &&& final(output).spec_scale() == old(output).spec_scale()
            },
            OutputEvent::Mode { flags, width, height, refresh } => {
                &&& final(output).spec_mode() == Some(Mode { flags, width, height, refresh })
                &&& final(output).spec_geometry() == old(output).spec_geometry()
                &&& final(output).spec_scale() == old(output).spec_scale()
            },
            OutputEvent::Scale { factor } => {
                &&& final(output).spec_scale() == factor as int
                &&& final(output).spec_geometry() == old(output).spec_geometry()
                &&& final(output).spec_mode() == old(output).spec_mode()
            },
            OutputEvent::Done => {
                &&& final(output).spec_geometry() == old(output).spec_geometry()
                &&& final(output).spec_mode() == old(output).spec_mode()
                &&& final(output).spec_scale() == old(output).spec_scale()
            },
        },
{
    match event {
        OutputEvent::Geometry { x, y, make, model } => {
            output.geometry = Some(Geometry { x, y, make, model });
            false
        },
        OutputEvent::Mode { flags, width, height, refresh } => {
            output.mode = Some(Mode { flags, width, height, refresh });
            false
        },
        OutputEvent::Scale { factor } => {
            output.scale = factor;
            false
        },
        OutputEvent::Done => true,
    }
}

/// The width a configure event's surface width is widened to: odd widths
/// are rounded up to the next even number, since odd buffer strides break
/// some compositors.
pub open spec fn spec_even_width(w: int) -> int {
    w + w % 2
}

impl ScaledMode {
    /// The physical pixel dimensions for a surface the compositor
    /// configured at `width` by `height` logical pixels on an output scaled
    /// by `scale`: the width rounded up to even, both axes multiplied by
    /// the scale.  Nothing is returned when the scale is not positive or
    /// the result does not fit a pixel dimension.
    pub fn from_configure(width: u32, height: u32, scale: i32) -> (m: Option<ScaledMode>)
        ensures
            (m is Some) <==> (1 <= scale && spec_even_width(width as int) * scale <= i32::MAX
                && height as int * scale <= i32::MAX),
            m matches Some(sm) ==> sm.width == spec_even_width(width as int) * scale && sm.height
                == height as int * scale && sm.width % 2 == 0 && sm.width >= 0 && sm.height >= 0,
    {
        if scale < 1 {
            return None;
        }
        let even: u64 = width as u64 + (width as u64) % 2;
        proof {
            assert((even as int) * (scale as int) <= 0x1_0000_0000 * 0x8000_0000
                && (height as int) * (scale as int) <= 0x1_0000_0000 * 0x8000_0000)
                by (nonlinear_arith)
                requires
                    0 <= (even as int) <= 0x1_0000_0000,
                    0 <= (height as int) <= 0x1_0000_0000,
                    0 <= (scale as int) <= 0x8000_0000,
            ;
        }
        let w: u64 = even * (scale as u64);
        let h: u64 = (height as u64) * (scale as u64);
        if w > i32::MAX as u64 || h > i32::MAX as u64 {
            return None;
        }
        proof {
            let k = (even as int) / 2;
            vstd::arithmetic::div_mod::lemma_fundamental_div_mod(even as int, 2);
            assert((even as int) * (scale as int) == (k * (scale as int)) * 2)
                by (nonlinear_arith)
                requires
                    even as int == 2 * k,
            ;
            vstd::arithmetic::div_mod::lemma_mod_multiples_basic(k * (scale as int), 2);
        }
        Some(ScaledMode { width: w as i32, height: h as i32 })
    }
}

} // verus!
