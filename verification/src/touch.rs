//! The absolute pointer backend: it moves the pointer to the screen point a
//! frame maps to, and only when that point changed.
use vstd::prelude::*;
use crate::errors::AppError;

verus! {

/// A point on the screen, in pixels.
#[derive(Debug, Clone, Copy, PartialEq, Eq, Structural)]
pub struct ScreenPoint {
    pub x: i32,
    pub y: i32,
}

/// The backend's state: whether it is enabled and the point last moved to.
#[derive(Debug, Clone, Copy, PartialEq, Eq, Structural)]
pub struct TouchBackend {
    pub enabled: bool,
    pub last_point: Option<ScreenPoint>,
}

impl Default for TouchBackend {
    fn default() -> (b: Self)
        ensures
            b.enabled,
            b.last_point is None,
    {
        TouchBackend { enabled: true, last_point: None }
    }
}

/// The screen size reported by the system, refused when either side is not
/// positive.
pub fn checked_screen_size(width: i32, height: i32) -> (r: Result<(i32, i32), AppError>)
    ensures
        (width > 0 && height > 0) <==> r is Ok,
        r matches Ok(size) ==> size == (width, height),
        r matches Err(e) ==> (e matches AppError::InvalidState(m) && m@
            == "failed to query screen size for absolute pointer output"@),
{
    if width <= 0 || height <= 0 {
        return Err(
            AppError::InvalidState(
                String::from_str("failed to query screen size for absolute pointer output"),
            ),
        );
    }
    Ok((width, height))
}

/// The error reported when the system refused to move the pointer.
pub fn cursor_move_error() -> (e: AppError)
    ensures
        e matches AppError::InvalidState(m) && m@ == "failed to set absolute cursor position"@,
{
    AppError::InvalidState(String::from_str("failed to set absolute cursor position"))
}

impl TouchBackend {
    pub fn set_enabled(&mut self, enabled: bool)
        ensures
            final(self).enabled == enabled,
            final(self).last_point == old(self).last_point,
    {
        self.enabled = enabled;
    }

    pub fn is_enabled(&self) -> (b: bool)
        ensures
            b == self.enabled,
    {
        self.enabled
    }

    /// The point the pointer is to be moved to for a frame that maps to
    /// `point` (`None` for an inactive frame): nothing while disabled, and
    /// nothing when the pointer already is there.
    pub fn point_to_send(&self, point: Option<ScreenPoint>) -> (r: Option<ScreenPoint>)
        ensures
            r == spec_point_to_send(*self, point),
    {
        if !self.enabled {
            return None;
        }
        match point {
            Some(p) => match self.last_point {
                Some(last) => if last == p {
                    None
                } else {
                    Some(p)
                },
                None => Some(p),
            },
            None => None,
        }
    }

    /// Records the outcome of a frame: a disabled backend and an inactive
    /// frame forget the last point; a point moved to becomes the last one;
    /// a failed move leaves the last point as it was.
    pub fn finish_apply(&mut self, point: Option<ScreenPoint>, moved: bool)
        ensures
            final(self).enabled == old(self).enabled,
            final(self).last_point == spec_last_point_after(*old(self), point, moved),
    {
        if !self.enabled {
            self.last_point = None;
            return;
        }
        match point {
            None => {
                self.last_point = None;
            },
            Some(p) => {
                let changed = match self.last_point {
                    Some(last) => last != p,
                    None => true,
                };
                if changed && moved {
                    self.last_point = Some(p);
                }
            },
        }
    }
}

/// The point to move to for a frame that maps to `point`.
pub open spec fn spec_point_to_send(b: TouchBackend, point: Option<ScreenPoint>) -> Option<ScreenPoint> {
    if b.enabled && point is Some && b.last_point != point {
        point
    } else {
        None
    }
}

/// The last point after handling a frame that maps to `point`; `moved`
/// tells whether the move (when one was due) succeeded.
pub open spec fn spec_last_point_after(b: TouchBackend, point: Option<ScreenPoint>, moved: bool) -> Option<
    ScreenPoint,
> {
    if !b.enabled || point is None {
        None
    } else if b.last_point != point && moved {
        point
    } else {
        b.last_point
    }
}

/// Once the pointer was moved to a point, the same point is not sent
/// again; a move that failed is retried with the next frame.
pub proof fn law_touch_moves_once_per_point(b: TouchBackend, p: ScreenPoint, moved: bool)
    requires
        b.enabled,
        spec_point_to_send(b, Some(p)) == Some(p),
    ensures
        moved ==> spec_point_to_send(
            TouchBackend { last_point: spec_last_point_after(b, Some(p), moved), ..b },
            Some(p),
        ) is None,
        !moved ==> spec_point_to_send(
            TouchBackend { last_point: spec_last_point_after(b, Some(p), moved), ..b },
            Some(p),
        ) == Some(p),
{
}


/// An enabled backend moves the pointer to every point that differs from
/// the last one in either coordinate, and sends nothing else: never a
/// point other than the frame's, nothing when disabled, nothing for the
/// point it is already at.
pub proof fn law_touch_sends_every_changed_point(b: TouchBackend, p: ScreenPoint)
    ensures
        b.enabled && b.last_point is None ==> spec_point_to_send(b, Some(p)) == Some(p),
        b.enabled && b.last_point is Some && (b.last_point.unwrap().x != p.x
            || b.last_point.unwrap().y != p.y) ==> spec_point_to_send(b, Some(p)) == Some(p),
        b.last_point == Some(p) ==> spec_point_to_send(b, Some(p)) is None,
        !b.enabled ==> spec_point_to_send(b, Some(p)) is None,
        spec_point_to_send(b, None) is None,
        spec_point_to_send(b, Some(p)) is Some ==> spec_point_to_send(b, Some(p)) == Some(p),
{
}
} // verus!
