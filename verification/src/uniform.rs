//! The uniform data that the fragment shader reads: a fixed array of
//! four-sample lanes and the number of lanes that hold the latest frame.

use vstd::prelude::*;

verus! {

/// The number of lanes in the uniform array.
pub const LANES: usize = 4096;

/// Four consecutive samples, as one shader vector.
#[derive(Clone, Copy, PartialEq, Eq, Structural, Debug)]
pub struct Lane {
    pub x: u32,
    pub y: u32,
    pub z: u32,
    pub w: u32,
}

/// The samples in whole groups of four, in order; up to three samples at
/// the end that fill no lane are left out.
pub open spec fn packed(samples: Seq<u32>) -> Seq<Lane> {
    Seq::new(
        (samples.len() / 4) as nat,
        |i: int|
            Lane {
                x: samples[4 * i],
                y: samples[4 * i + 1],
                z: samples[4 * i + 2],
                w: samples[4 * i + 3],
            },
    )
}

/// The array after `fresh` lanes were copied over its front: the rest
/// keeps what it held.
pub open spec fn overlaid(lanes: Seq<Lane>, fresh: Seq<Lane>) -> Seq<Lane>
    recommends
        fresh.len() <= lanes.len(),
{
    fresh + lanes.skip(fresh.len() as int)
}

/// The material of the visualisation surface.
#[derive(Clone, Debug)]
pub struct CustomMaterial {
    arr: Vec<Lane>,
    len: u32,
}

impl CustomMaterial {
    /// All lanes of the array, valid or not.
    pub closed spec fn lanes(&self) -> Seq<Lane> {
        self.arr@
    }

    /// The number of lanes that the shader is to read.
    pub closed spec fn count(&self) -> nat {
        self.len as nat
    }

    /// The array has its fixed size and the count stays within it.
    pub closed spec fn wf(&self) -> bool {
        self.arr@.len() == LANES && self.len <= LANES
    }

    /// What `wf` says, for callers.
    pub proof fn lemma_wf(&self)
        requires
            self.wf(),
        ensures
            self.lanes().len() == LANES,
            self.count() <= LANES,
    {
    }

    /// A material of the given lanes and count, where the lanes fill the
    /// array exactly and the count stays within it.
    pub fn from_lanes(arr: Vec<Lane>, len: u32) -> (material: Option<CustomMaterial>)
        ensures
            material is Some <==> arr@.len() == LANES && len <= LANES,
            material is Some ==> {
                &&& material.unwrap().wf()
                &&& material.unwrap().lanes() == arr@
                &&& material.unwrap().count() == len
            },
    {
        if arr.len() == LANES && len as usize <= LANES {
            Some(CustomMaterial { arr, len })
        } else {
            None
        }
    }

    /// The lanes of the array.
    pub fn arr(&self) -> (lanes: &Vec<Lane>)
        ensures
            lanes@ == self.lanes(),
    {
        &self.arr
    }

    /// The number of valid lanes.
    pub fn len(&self) -> (count: u32)
        ensures
            count == self.count(),
    {
        self.len
    }

    /// Copies the samples, in groups of four, over the front of the array
    /// and sets the count to the number of groups. Lanes behind them keep
    /// their contents.
    pub fn fill(&mut self, samples: &[u32])
        requires
            old(self).wf(),
            samples@.len() / 4 <= LANES,
        ensures
            final(self).wf(),
            final(self).lanes() == overlaid(old(self).lanes(), packed(samples@)),
            final(self).count() == samples@.len() / 4,
    {
        let groups: usize = samples.len() / 4;
        let mut i: usize = 0;
        while i < groups
            invariant
                i <= groups,
                groups == samples@.len() / 4,
                groups <= LANES,
                self.arr@.len() == LANES,
                self.len == old(self).len,
                forall|k: int| 0 <= k < i ==> self.arr@[k] == packed(samples@)[k],
                forall|k: int| i <= k < LANES ==> self.arr@[k] == old(self).arr@[k],
            decreases groups - i,
        {
            let lane = Lane {
                x: samples[4 * i],
                y: samples[4 * i + 1],
                z: samples[4 * i + 2],
                w: samples[4 * i + 3],
            };
            self.arr.set(i, lane);
            i += 1;
        }
        self.len = groups as u32;
        assert(self.arr@ =~= overlaid(old(self).arr@, packed(samples@)));
    }
}

impl Default for CustomMaterial {
    /// An array of silent lanes, of which the shader reads the first four.
    fn default() -> (material: CustomMaterial)
        ensures
            material.wf(),
            material.lanes() == Seq::new(LANES as nat, |i: int| Lane { x: 0, y: 0, z: 0, w: 0 }),
            material.count() == 4,
    {
        let silent = Lane { x: 0, y: 0, z: 0, w: 0 };
        let mut arr: Vec<Lane> = Vec::with_capacity(LANES);
        let mut i: usize = 0;
        while i < LANES
            invariant
                i <= LANES,
                arr@.len() == i,
                silent == (Lane { x: 0, y: 0, z: 0, w: 0 }),
                forall|k: int| 0 <= k < i ==> arr@[k] == silent,
            decreases LANES - i,
        {
            arr.push(silent);
            i += 1;
        }
        assert(arr@ =~= Seq::new(LANES as nat, |i: int| Lane { x: 0, y: 0, z: 0, w: 0 }));
        CustomMaterial { arr, len: 4 }
    }
}

/// Packing loses nothing of the samples that fill whole lanes: sample `j`
/// sits in lane `j / 4`, at place `j % 4`.
pub proof fn lemma_packed_keeps_samples(samples: Seq<u32>, j: int)
    requires
        0 <= j < 4 * (samples.len() / 4),
    ensures
        j / 4 < packed(samples).len(),
        samples[j] == {
            let lane = packed(samples)[j / 4];
            if j % 4 == 0 {
                lane.x
            } else if j % 4 == 1 {
                lane.y
            } else if j % 4 == 2 {
                lane.z
            } else {
                lane.w
            }
        },
{
}

} // verus!
