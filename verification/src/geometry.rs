//! Geometry handed to the graphics driver: draw lists combined into single buffers, and the
//! scissor rectangle of a window.

use vstd::prelude::*;
use crate::commands::ScissorRect;

verus! {

/// Combines per-list buffers into the data of one buffer.
#[derive(Debug)]
pub struct GeometryBufferBuilder;

impl GeometryBufferBuilder {
    /// The data of all `lists`, in order, one after another; `None` when there is no data at
    /// all, since no buffer is made for empty data.
    pub fn combine<T: Copy>(lists: &Vec<Vec<T>>) -> (r: Option<Vec<T>>)
        ensures
            lists@.map_values(|v: Vec<T>| v@).flatten().len() == 0 ==> r is None,
            lists@.map_values(|v: Vec<T>| v@).flatten().len() > 0 ==> (r matches Some(v) && v@
                == lists@.map_values(|v: Vec<T>| v@).flatten()),
    {
        let ghost views = lists@.map_values(|v: Vec<T>| v@);
        let mut out: Vec<T> = Vec::new();
        let n = lists.len();
        for i in 0..n
            invariant
                n == lists@.len(),
                views == lists@.map_values(|v: Vec<T>| v@),
                out@ == views.take(i as int).flatten(),
        {
            let list = &lists[i];
            let m = list.len();
            let ghost before = out@;
            for j in 0..m
                invariant
                    m == list@.len(),
                    out@ == before + list@.take(j as int),
            {
                out.push(list[j]);
                proof {
                    assert(list@.take(j + 1) =~= list@.take(j as int).push(list@[j as int]));
                }
            }
            proof {
                assert(list@.take(m as int) =~= list@);
                assert(views.take(i + 1) =~= views.take(i as int).push(list@));
                views.take(i as int).lemma_flatten_push(list@);
            }
        }
        proof {
            assert(views.take(n as int) =~= views);
        }
        if out.len() == 0 {
            None
        } else {
            Some(out)
        }
    }
}

/// Builds scissor rectangles.
#[derive(Debug)]
pub struct ScissorBuilder;

impl ScissorBuilder {
    /// The scissor that covers a whole surface of the given size.
    pub fn from_surface_size(width: u32, height: u32) -> (r: ScissorRect)
        ensures
            r == (ScissorRect { offset_x: 0, offset_y: 0, width, height }),
    {
        ScissorRect { offset_x: 0, offset_y: 0, width, height }
    }
}

/// Whether a surface of the given size can be presented to: the swapchain is refreshed only
/// for surfaces with no zero dimension.
pub fn is_presentable_size(width: u32, height: u32) -> (r: bool)
    ensures
        r == (width != 0 && height != 0),
{
    width != 0 && height != 0
}

} // verus!
