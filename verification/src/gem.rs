//! Job submission: the arguments of the submit ioctl, the state of one job while it is checked,
//! and the steps that look up its buffer objects and lay out and check its binner command list.
use vstd::prelude::*;
use crate::device::{gpu_bo, GpuDevice, Vc4Error, lookup_spec, VC4_BO_TYPE_BCL, wrap32, round_up_spec, roundUp, lemma_round_up};
use crate::validate::{bin_cl_validated, bin_cl_checkable, copy_walk_state, vc4_bin_cl_checkable};

verus! {

/// One surface of the render setup: which buffer object (an index into the job's handles, or
/// `!0` for none), where in it, and the load/store or render-config bits.
#[derive(Clone, Copy, Debug, PartialEq, Eq, Structural)]
pub struct drm_vc4_submit_rcl_surface {
    pub hindex: u32,
    pub offset: u32,
    pub bits: u16,
    pub flags: u16,
}

/// A shader state record as the binner validation tracks it.
#[derive(Clone, Copy, Debug, PartialEq, Eq, Structural)]
pub struct vc4_shader_state {
    pub addr: u32,
    /// Largest vertex index referenced by any primitive using this shader state.
    pub max_index: u32,
}

/// The arguments of the submit-CL ioctl.
#[derive(Clone, Copy)]
pub struct drm_vc4_submit_cl {
    /// User address of the binner command list.
    pub bin_cl: usize,
    /// User address of the shader records.
    pub shader_rec: u64,
    /// User address of the uniforms.
    pub uniforms: u64,
    /// User address of the array of BO handles.
    pub bo_handles: usize,
    /// Size in bytes of the binner command list.
    pub bin_cl_size: u32,
    /// Size in bytes of the shader records.
    pub shader_rec_size: u32,
    /// Number of shader records.
    pub shader_rec_count: u32,
    /// Size in bytes of the uniforms.
    pub uniforms_size: u32,
    /// Number of BO handles.
    pub bo_handle_count: u32,
    pub width: u16,
    pub height: u16,
    pub min_x_tile: u8,
    pub min_y_tile: u8,
    pub max_x_tile: u8,
    pub max_y_tile: u8,
    pub color_read: drm_vc4_submit_rcl_surface,
    pub color_write: drm_vc4_submit_rcl_surface,
    pub zs_read: drm_vc4_submit_rcl_surface,
    pub zs_write: drm_vc4_submit_rcl_surface,
    pub msaa_color_write: drm_vc4_submit_rcl_surface,
    pub msaa_zs_write: drm_vc4_submit_rcl_surface,
    pub clear_color: [u32; 2],
    pub clear_z: u32,
    pub clear_s: u8,
    pub flags: u32,
    /// Returned sequence number of the job.
    pub seqno: u64,
}

/// The state of one job while the driver checks it.
pub struct vc4_exec_info {
    /// The ioctl's arguments.
    pub args: drm_vc4_submit_cl,
    /// The buffer objects looked up for the job's handles; packets name them by index.
    pub bo: Vec<gpu_bo>,
    pub bo_count: u32,
    /// Other buffer objects the job uses.
    pub unref_list: Vec<gpu_bo>,
    /// The indices into `bo` that the last `VC4_PACKET_GEM_HANDLES` packet loaded.
    pub bo_index: [u32; 2],
    /// The buffer object holding the checked command list, shader records and uniforms.
    pub exec_bo: Option<gpu_bo>,
    /// The shader state records, one per shader state the job declared.
    pub shader_state: Vec<vc4_shader_state>,
    /// How many shader states the job declared.
    pub shader_state_size: u32,
    /// How many shader state packets the validator has seen.
    pub shader_state_count: u32,
    pub bin_tiles_x: u8,
    pub bin_tiles_y: u8,
    /// Physical address of the start of the tile allocation array.
    pub tile_alloc_offset: u32,
    /// Start and end addresses of the binner thread (ct0) and render thread (ct1) lists.
    pub ct0ca: u32,
    pub ct0ea: u32,
    pub ct1ca: u32,
    pub ct1ea: u32,
    /// Address of the unchecked binner list.
    pub bin_u: usize,
    pub shader_rec_u: usize,
    pub shader_rec_v: usize,
    pub shader_rec_p: u32,
    pub shader_rec_size: u32,
}

impl vc4_exec_info {
    /// The state of a job that has just been submitted with `args`.
    pub fn new(args: drm_vc4_submit_cl) -> (r: vc4_exec_info)
        ensures
            r.args == args,
            r.bo@ == Seq::<gpu_bo>::empty(),
            r.bo_count == 0,
            r.unref_list@ == Seq::<gpu_bo>::empty(),
            r.bo_index@ == seq![0u32, 0u32],
            r.exec_bo is None,
            r.shader_state@ == Seq::<vc4_shader_state>::empty(),
            r.shader_state_size == 0,
            r.shader_state_count == 0,
            r.bin_tiles_x == 0,
            r.bin_tiles_y == 0,
            r.tile_alloc_offset == 0,
            r.ct0ca == 0,
            r.ct0ea == 0,
            r.ct1ca == 0,
            r.ct1ea == 0,
            r.bin_u == 0,
            r.shader_rec_u == 0,
            r.shader_rec_v == 0,
            r.shader_rec_p == 0,
            r.shader_rec_size == 0,
    {
        let r = vc4_exec_info {
            args,
            bo: Vec::new(),
            bo_count: 0,
            unref_list: Vec::new(),
            bo_index: [0, 0],
            exec_bo: None,
            shader_state: Vec::new(),
            shader_state_size: 0,
            shader_state_count: 0,
            bin_tiles_x: 0,
            bin_tiles_y: 0,
            tile_alloc_offset: 0,
            ct0ca: 0,
            ct0ea: 0,
            ct1ca: 0,
            ct1ea: 0,
            bin_u: 0,
            shader_rec_u: 0,
            shader_rec_v: 0,
            shader_rec_p: 0,
            shader_rec_size: 0,
        };
        assert(r.bo_index@ =~= seq![0u32, 0u32]);
        r
    }
}


/// Bytes of one `vc4_shader_state`: two 32-bit words.
pub const VC4_SHADER_STATE_SIZE: u32 = 8;

/// Where the parts of a job's buffer object lie: the binner list from 0, the shader records
/// from `shader_rec_offset`, the uniforms from `uniforms_offset`, `exec_size` bytes in all;
/// `temp_size` adds room for the shader states.
#[derive(Clone, Copy, Debug, PartialEq, Eq, Structural)]
pub struct vc4_bcl_layout {
    pub shader_rec_offset: u32,
    pub uniforms_offset: u32,
    pub exec_size: u32,
    pub temp_size: u32,
}

/// The layout computed for `args` in 32-bit arithmetic that wraps around.
pub open spec fn bcl_layout_of(args: drm_vc4_submit_cl) -> vc4_bcl_layout {
    let sro = round_up_spec(args.bin_cl_size, 16);
    let uo = wrap32(sro + args.shader_rec_size);
    let es = wrap32(uo + args.uniforms_size);
    let ts = wrap32(es + wrap32(VC4_SHADER_STATE_SIZE * args.shader_rec_count));
    vc4_bcl_layout { shader_rec_offset: sro, uniforms_offset: uo, exec_size: es, temp_size: ts }
}

/// The layout shows no wrap-around: each offset is at least the one before it.
pub open spec fn bcl_layout_ok(args: drm_vc4_submit_cl, l: vc4_bcl_layout) -> bool {
    !(l.shader_rec_offset < args.bin_cl_size || l.uniforms_offset < l.shader_rec_offset
        || l.exec_size < l.uniforms_offset || l.temp_size < l.exec_size)
}

/// Lays out the job's buffer object for `args`; a layout that wrapped around is refused with
/// `InvalidParam`.
pub fn vc4_bcl_layout(args: &drm_vc4_submit_cl) -> (r: Result<vc4_bcl_layout, Vc4Error>)
    ensures
        r == (if bcl_layout_ok(*args, bcl_layout_of(*args)) {
            Ok::<vc4_bcl_layout, Vc4Error>(bcl_layout_of(*args))
        } else {
            Err::<vc4_bcl_layout, Vc4Error>(Vc4Error::InvalidParam)
        }),
{
    let bin_offset: u32 = 0;
    let shader_rec_offset: u32 = roundUp(bin_offset + args.bin_cl_size, 16);
    let uniforms_offset = shader_rec_offset.wrapping_add(args.shader_rec_size);
    assert(uniforms_offset == wrap32(shader_rec_offset + args.shader_rec_size));
    let exec_size = uniforms_offset.wrapping_add(args.uniforms_size);
    assert(exec_size == wrap32(uniforms_offset + args.uniforms_size));
    let states = VC4_SHADER_STATE_SIZE.wrapping_mul(args.shader_rec_count);
    assert(states == wrap32(VC4_SHADER_STATE_SIZE * args.shader_rec_count));
    let temp_size = exec_size.wrapping_add(states);
    assert(temp_size == wrap32(exec_size + states));
    let l = vc4_bcl_layout { shader_rec_offset, uniforms_offset, exec_size, temp_size };
    if shader_rec_offset < args.bin_cl_size || uniforms_offset < shader_rec_offset || exec_size
        < uniforms_offset || temp_size < exec_size {
        return Err(Vc4Error::InvalidParam);
    }
    Ok(l)
}

/// An accepted layout did not wrap around: the shader records start at the binner list's size
/// rounded up to 16 bytes, and the uniforms and the end follow at the true sums of the sizes.
pub proof fn lemma_bcl_layout_exact(args: drm_vc4_submit_cl)
    requires
        bcl_layout_ok(args, bcl_layout_of(args)),
    ensures
        bcl_layout_of(args).shader_rec_offset % 16 == 0,
        args.bin_cl_size <= bcl_layout_of(args).shader_rec_offset < args.bin_cl_size + 16,
        bcl_layout_of(args).uniforms_offset == bcl_layout_of(args).shader_rec_offset
            + args.shader_rec_size,
        bcl_layout_of(args).exec_size == bcl_layout_of(args).uniforms_offset + args.uniforms_size,
{
    let l = bcl_layout_of(args);
    let b = args.bin_cl_size;
    if b + 15 > u32::MAX {
        let t = b + 15 - 0x1_0000_0000;
        assert(wrap32(b + 16 - 1) == t);
        assert(l.shader_rec_offset <= t);
        assert(false);
    }
    lemma_round_up(b, 16);
    let sum1 = l.shader_rec_offset + args.shader_rec_size;
    if sum1 > u32::MAX {
        assert(wrap32(sum1) == sum1 - 0x1_0000_0000);
        assert(false);
    }
    let sum2 = l.uniforms_offset + args.uniforms_size;
    if sum2 > u32::MAX {
        assert(wrap32(sum2) == sum2 - 0x1_0000_0000);
        assert(false);
    }
}

/// The job after its buffer object `bo` was laid out with `l`: the binner thread starts at the
/// buffer object, and the shader records are found `shader_rec_offset` bytes into it.
pub open spec fn with_exec_bo(exec: vc4_exec_info, bo: gpu_bo, l: vc4_bcl_layout) -> vc4_exec_info {
    vc4_exec_info {
        exec_bo: Some(bo),
        ct0ca: bo.paddr,
        shader_rec_v: (bo.vaddr + l.shader_rec_offset) as usize,
        shader_rec_p: (bo.paddr + l.shader_rec_offset) as u32,
        shader_rec_size: exec.args.shader_rec_size,
        ..exec
    }
}

/// The job's buffer object fits the layout of `e0`'s arguments (it is a binner-list buffer
/// object of at least `exec_size` bytes, and `d0`, its memory, is `exec_size` bytes), it can be
/// set up without overflow, and the binner list, once read, can be checked with the binner
/// buffer object.
pub open spec fn get_bcl_ready(
    bin_bo: Option<gpu_bo>,
    e0: vc4_exec_info,
    d0: Seq<u8>,
    exec_bo: Option<gpu_bo>,
    bin_cl: Option<Vec<u8>>,
) -> bool {
    let l = bcl_layout_of(e0.args);
    bcl_layout_ok(e0.args, l) ==> match exec_bo {
        Some(bo) => {
            &&& bo.bo_type == VC4_BO_TYPE_BCL
            &&& l.exec_size <= bo.size
            &&& d0.len() == l.exec_size
            &&& bo.paddr + l.shader_rec_offset <= u32::MAX
            &&& bo.vaddr + l.shader_rec_offset <= usize::MAX
            &&& match (bin_cl, bin_bo) {
                (Some(v), Some(b)) => bin_cl_checkable(with_exec_bo(e0, bo, l), d0, v@, b.paddr),
                _ => true,
            }
        },
        None => true,
    }
}

/// What setting up the job's buffer object and checking its binner list does: from job `e0`
/// and output memory `d0` to `e1`, `d1` and result `r`. A wrapped layout, a missing buffer
/// object or an unreadable binner list refuse the job with `InvalidParam`; the job records the
/// buffer object before the list is read; the list is then checked (`bin_cl_validated`).
pub open spec fn get_bcl_spec(
    bin_bo: Option<gpu_bo>,
    e0: vc4_exec_info,
    d0: Seq<u8>,
    exec_bo: Option<gpu_bo>,
    bin_cl: Option<Vec<u8>>,
    e1: vc4_exec_info,
    d1: Seq<u8>,
    r: Result<(), Vc4Error>,
) -> bool {
    let l = bcl_layout_of(e0.args);
    if !bcl_layout_ok(e0.args, l) {
        r == Err::<(), Vc4Error>(Vc4Error::InvalidParam) && e1 == e0 && d1 == d0
    } else {
        match exec_bo {
            None => r == Err::<(), Vc4Error>(Vc4Error::InvalidParam) && e1 == e0 && d1 == d0,
            Some(bo) => {
                let e = with_exec_bo(e0, bo, l);
                match bin_cl {
                    None => r == Err::<(), Vc4Error>(Vc4Error::InvalidParam) && e1 == e && d1 == d0,
                    Some(v) => bin_cl_validated(bin_bo, e, d0, v@, e1, d1, r),
                }
            },
        }
    }
}

/// Looking up the handles `hs` in the map `m`, front to back until one is not found: the buffer
/// objects found, in handle order, and whether every handle was found.
pub open spec fn lookup_run(m: Map<u32, gpu_bo>, hs: Seq<u32>) -> (Seq<gpu_bo>, bool)
    decreases hs.len(),
{
    if hs.len() == 0 {
        (Seq::empty(), true)
    } else {
        match lookup_spec(m, hs[0]) {
            Some(b) => {
                let rest = lookup_run(m, hs.drop_first());
                (seq![b] + rest.0, rest.1)
            },
            None => (Seq::empty(), false),
        }
    }
}

/// Looking up the buffer objects of a job that names `count` of them, with the handles read
/// from the caller (`None` if they could not be read): the buffer objects found, in handle
/// order, and the result. A job naming none is accepted; unreadable handles or a handle without
/// a live buffer object refuse the job with `InvalidParam`.
pub open spec fn lookup_bos_spec(m: Map<u32, gpu_bo>, count: u32, handles: Option<Vec<u32>>) -> (
    Seq<gpu_bo>,
    Result<(), Vc4Error>,
) {
    if count == 0 {
        (Seq::empty(), Ok(()))
    } else {
        match handles {
            None => (Seq::empty(), Err(Vc4Error::InvalidParam)),
            Some(h) => {
                let run = lookup_run(m, h@);
                (run.0, if run.1 { Ok(()) } else { Err(Vc4Error::InvalidParam) })
            },
        }
    }
}

/// Looking up the handles from index `i` on continues the run made so far.
proof fn lemma_lookup_run_step(m: Map<u32, gpu_bo>, hs: Seq<u32>, i: int)
    requires
        0 <= i < hs.len(),
    ensures
        lookup_run(m, hs.subrange(i, hs.len() as int)) == (match lookup_spec(m, hs[i]) {
            Some(b) => {
                let rest = lookup_run(m, hs.subrange(i + 1, hs.len() as int));
                (seq![b] + rest.0, rest.1)
            },
            None => (Seq::<gpu_bo>::empty(), false),
        }),
{
    let t = hs.subrange(i, hs.len() as int);
    assert(t.drop_first() =~= hs.subrange(i + 1, hs.len() as int));
    assert(t[0] == hs[i]);
}

impl GpuDevice {
    /// Records how many buffer objects the job names and looks each one up, with
    /// `vc4_lookup_bo`, by the handles read from the caller (`None` if they could not be
    /// read): see `lookup_bos_spec`. The buffer objects found are appended to the job's, in
    /// handle order, up to the first handle not found.
    pub fn vc4_cl_lookup_bos(&self, exec: &mut vc4_exec_info, handles: Option<Vec<u32>>) -> (r: Result<
        (),
        Vc4Error,
    >)
        requires
            handles matches Some(h) ==> h@.len() == old(exec).args.bo_handle_count,
        ensures
            *final(exec) == (vc4_exec_info {
                bo_count: old(exec).args.bo_handle_count,
                bo: final(exec).bo,
                ..*old(exec)
            }),
            final(exec).bo@ == old(exec).bo@ + lookup_bos_spec(
                self.handle_bo_map@,
                old(exec).args.bo_handle_count,
                handles,
            ).0,
            r == lookup_bos_spec(self.handle_bo_map@, old(exec).args.bo_handle_count, handles).1,
            old(exec).args.bo_handle_count == 0 || handles is None ==> *final(exec) == (vc4_exec_info {
                bo_count: old(exec).args.bo_handle_count,
                ..*old(exec)
            }),
    {
        exec.bo_count = exec.args.bo_handle_count;
        if exec.bo_count == 0 {
            assert(exec.bo@ =~= old(exec).bo@ + Seq::<gpu_bo>::empty());
            return Ok(());
        }
        let ghost want = lookup_bos_spec(self.handle_bo_map@, exec.args.bo_handle_count, handles);
        let hs = match handles {
            Some(h) => h,
            None => {
                assert(exec.bo@ =~= old(exec).bo@ + Seq::<gpu_bo>::empty());
                return Err(Vc4Error::InvalidParam);
            },
        };
        let ghost hv = hs@;
        let ghost m = self.handle_bo_map@;
        let ghost total = lookup_run(m, hv);
        let n = exec.bo_count as usize;
        let mut i: usize = 0;
        let ghost mut found: Seq<gpu_bo> = Seq::empty();
        proof {
            assert(hv.subrange(0, hv.len() as int) =~= hv);
            assert(exec.bo@ =~= old(exec).bo@ + Seq::<gpu_bo>::empty());
            assert(total.0 =~= found + total.0);
        }
        while i < n
            invariant
                n == hs@.len(),
                hv == hs@,
                m == self.handle_bo_map@,
                total == lookup_run(m, hv),
                want == lookup_bos_spec(self.handle_bo_map@, old(exec).args.bo_handle_count, handles),
                want.0 == total.0,
                old(exec).args.bo_handle_count != 0,
                handles is Some,
                want.1 == (if total.1 { Ok::<(), Vc4Error>(()) } else { Err(Vc4Error::InvalidParam) }),
                i <= n,
                exec.bo_count == old(exec).args.bo_handle_count,
                *exec == (vc4_exec_info {
                    bo_count: old(exec).args.bo_handle_count,
                    bo: exec.bo,
                    ..*old(exec)
                }),
                exec.bo@ == old(exec).bo@ + found,
                total.0 == found + lookup_run(m, hv.subrange(i as int, n as int)).0,
                total.1 == lookup_run(m, hv.subrange(i as int, n as int)).1,
            decreases n - i,
        {
            proof {
                lemma_lookup_run_step(m, hv, i as int);
            }
            match self.vc4_lookup_bo(hs[i]) {
                Some(bo) => {
                    exec.bo.push(bo);
                    proof {
                        let rest = lookup_run(m, hv.subrange(i + 1, n as int));
                        assert(total.0 =~= found.push(bo) + rest.0);
                        found = found.push(bo);
                        assert(exec.bo@ =~= old(exec).bo@ + found);
                    }
                },
                None => {
                    proof {
                        assert(lookup_run(m, hv.subrange(i as int, n as int)) == (Seq::<gpu_bo>::empty(), false));
                        assert(total.0 =~= found);
                    }
                    return Err(Vc4Error::InvalidParam);
                },
            }
            i = i + 1;
        }
        proof {
            assert(hv.subrange(i as int, n as int) =~= Seq::<u32>::empty());
            assert(total.0 =~= found);
        }
        Ok(())
    }

    /// Decides `get_bcl_ready`: whether `vc4_get_bcl` can be run on `exec` with the buffer
    /// object `exec_bo`, the binner list `bin_cl` and the output `validated` without
    /// overflowing, leaving its buffers or running forever. Nothing changes.
    pub fn vc4_get_bcl_ready(
        &self,
        exec: &vc4_exec_info,
        exec_bo: Option<gpu_bo>,
        bin_cl: &Option<Vec<u8>>,
        validated: &Vec<u8>,
    ) -> (r: bool)
        ensures
            r == get_bcl_ready(self.bin_bo, *exec, validated@, exec_bo, *bin_cl),
    {
        let l = match vc4_bcl_layout(&exec.args) {
            Ok(l) => l,
            Err(_) => {
                return true;
            },
        };
        let bo = match exec_bo {
            Some(bo) => bo,
            None => {
                return true;
            },
        };
        if bo.bo_type != VC4_BO_TYPE_BCL || (l.exec_size as usize) > bo.size || validated.len()
            != l.exec_size as usize {
            return false;
        }
        if bo.paddr as u64 + l.shader_rec_offset as u64 > u32::MAX as u64 || bo.vaddr as u128
            + l.shader_rec_offset as u128 > usize::MAX as u128 {
            return false;
        }
        let v = match bin_cl {
            Some(v) => v,
            None => {
                return true;
            },
        };
        let b = match self.bin_bo {
            Some(b) => b,
            None => {
                return true;
            },
        };
        let mut e = copy_walk_state(exec);
        e.exec_bo = Some(bo);
        e.ct0ca = bo.paddr;
        e.shader_rec_v = bo.vaddr + l.shader_rec_offset as usize;
        e.shader_rec_p = bo.paddr + l.shader_rec_offset;
        e.shader_rec_size = exec.args.shader_rec_size;
        let ghost w = with_exec_bo(*exec, bo, l);
        assert(e.bin_ctx(b.paddr) == w.bin_ctx(b.paddr));
        assert(e.bin_state(validated@) == w.bin_state(validated@));
        assert(e.args == w.args && e.ct0ca == w.ct0ca);
        assert(bin_cl_checkable(e, validated@, v@, b.paddr) == bin_cl_checkable(w, validated@, v@, b.paddr));
        vc4_bin_cl_checkable(&e, validated, v, b.paddr)
    }

    /// Sets up the job's buffer object and checks its binner list into it.
    ///
    /// The layout is computed first (`vc4_bcl_layout`); a wrapped one is refused. `exec_bo` is
    /// the buffer object created with the layout's `exec_size` bytes, `None` if it could not be;
    /// without one the job is refused with `InvalidParam`. The job then records it
    /// (`with_exec_bo`). `bin_cl` is the binner list read from the caller, `None` if it could
    /// not be read, which refuses the job with `InvalidParam`. Finally the list is checked into
    /// `validated`, the buffer object's memory (`bin_cl_validated`).
    pub fn vc4_get_bcl(
        &mut self,
        exec: &mut vc4_exec_info,
        exec_bo: Option<gpu_bo>,
        bin_cl: Option<Vec<u8>>,
        validated: &mut Vec<u8>,
    ) -> (r: Result<(), Vc4Error>)
        requires
            get_bcl_ready(old(self).bin_bo, *old(exec), old(validated)@, exec_bo, bin_cl),
        ensures
            *final(self) == *old(self),
            get_bcl_spec(old(self).bin_bo, *old(exec), old(validated)@, exec_bo, bin_cl, *final(exec), final(validated)@, r),
    {
        let l = match vc4_bcl_layout(&exec.args) {
            Ok(l) => l,
            Err(e) => {
                return Err(e);
            },
        };
        let bo = match exec_bo {
            Some(bo) => bo,
            None => {
                return Err(Vc4Error::InvalidParam);
            },
        };
        let bin_offset: u32 = 0;
        exec.exec_bo = Some(bo);
        exec.ct0ca = bo.paddr + bin_offset;
        exec.shader_rec_v = bo.vaddr + l.shader_rec_offset as usize;
        exec.shader_rec_p = bo.paddr + l.shader_rec_offset;
        exec.shader_rec_size = exec.args.shader_rec_size;
        let temp = match bin_cl {
            Some(v) => v,
            None => {
                return Err(Vc4Error::InvalidParam);
            },
        };
        self.vc4_validate_bin_cl(exec, validated, &temp)?;
        Ok(())
    }
}


/// The steps of submitting a job; each names the outside work to be done next, with what it
/// needs, and `Done` ends the submission with its result.
#[derive(Clone, Copy, Debug)]
pub enum SubmitStep {
    /// Read `count` 32-bit buffer object handles from the caller's memory at `addr`.
    ReadHandles { addr: usize, count: u32 },
    /// Create a buffer object of `size` bytes of type `VC4_BO_TYPE_BCL` for the job.
    CreateExecBo { size: u32 },
    /// Read `len` bytes of binner list from the caller's memory at `addr`, for the job whose
    /// buffer object is `bo`.
    ReadBinCl { addr: usize, len: u32, bo: gpu_bo },
    /// Submission is over.
    Done { result: Result<(), Vc4Error> },
}

/// What came back from the step that was asked for; `Start` begins a submission.
pub enum SubmitEvent {
    Start,
    /// The handles, or `None` if they could not be read.
    Handles { handles: Option<Vec<u32>> },
    /// The job's buffer object, or `None` if it could not be created.
    ExecBo { bo: Option<gpu_bo> },
    /// The binner list read for the buffer object `exec_bo`, or `None` if it could not be read.
    BinCl { exec_bo: gpu_bo, bytes: Option<Vec<u8>> },
}

/// The job and the next step once its buffer objects were looked up: with a binner list, the
/// job's buffer object is created next if its layout did not wrap (else the job is refused);
/// without one, the binner thread gets no list and the submission succeeds.
pub open spec fn submit_after_lookup(e: vc4_exec_info) -> (vc4_exec_info, SubmitStep) {
    if e.args.bin_cl_size != 0 {
        let l = bcl_layout_of(e.args);
        if bcl_layout_ok(e.args, l) {
            (e, SubmitStep::CreateExecBo { size: l.exec_size })
        } else {
            (e, SubmitStep::Done { result: Err(Vc4Error::InvalidParam) })
        }
    } else {
        (vc4_exec_info { ct0ca: 0, ct0ea: 0, ..e }, SubmitStep::Done { result: Ok(()) })
    }
}

impl GpuDevice {
    /// The step after the job's buffer objects were looked up: see `submit_after_lookup`.
    fn submit_bin_stage(&mut self, exec: &mut vc4_exec_info) -> (r: SubmitStep)
        ensures
            *final(self) == *old(self),
            (*final(exec), r) == submit_after_lookup(*old(exec)),
    {
        if exec.args.bin_cl_size != 0 {
            match vc4_bcl_layout(&exec.args) {
                Ok(l) => SubmitStep::CreateExecBo { size: l.exec_size },
                Err(e) => SubmitStep::Done { result: Err(e) },
            }
        } else {
            exec.ct0ca = 0;
            exec.ct0ea = 0;
            SubmitStep::Done { result: Ok(()) }
        }
    }

    /// Takes a submission of the job `exec` one step on, once `ev` came back from the step
    /// asked for before (`Start` for a new submission); returns the next step.
    ///
    /// A job naming buffer objects has their handles read first; they are looked up with
    /// `vc4_cl_lookup_bos`, and a failure ends the submission. Then a job with a binner list
    /// has its buffer object created and its list read and checked (`vc4_get_bcl`); a job
    /// without one gets no binner thread (see `submit_after_lookup`). Whether a binner list
    /// that was read can be checked at all is decided beforehand by `vc4_get_bcl_ready`.
    pub fn vc4_submit_cl_ioctl(&mut self, exec: &mut vc4_exec_info, ev: SubmitEvent, validated: &mut Vec<u8>) -> (r:
        SubmitStep)
        requires
            ev matches SubmitEvent::Handles { handles: Some(h) } ==> h@.len() == old(exec).args.bo_handle_count,
            ev matches SubmitEvent::BinCl { exec_bo, bytes } ==> get_bcl_ready(
                old(self).bin_bo,
                *old(exec),
                old(validated)@,
                Some(exec_bo),
                bytes,
            ),
        ensures
            *final(self) == *old(self),
            match ev {
                SubmitEvent::Start => if old(exec).args.bo_handle_count != 0 {
                    &&& r == SubmitStep::ReadHandles {
                        addr: old(exec).args.bo_handles,
                        count: old(exec).args.bo_handle_count,
                    }
                    &&& *final(exec) == *old(exec)
                    &&& final(validated)@ == old(validated)@
                } else {
                    &&& (*final(exec), r) == submit_after_lookup(
                        vc4_exec_info { bo_count: 0, ..*old(exec) },
                    )
                    &&& final(validated)@ == old(validated)@
                },
                SubmitEvent::Handles { handles } => {
                    let found = lookup_bos_spec(
                        old(self).handle_bo_map@,
                        old(exec).args.bo_handle_count,
                        handles,
                    );
                    let e = vc4_exec_info {
                        bo_count: old(exec).args.bo_handle_count,
                        bo: final(exec).bo,
                        ..*old(exec)
                    };
                    &&& final(validated)@ == old(validated)@
                    &&& final(exec).bo@ == old(exec).bo@ + found.0
                    &&& match found.1 {
                        Ok(()) => (*final(exec), r) == submit_after_lookup(e),
                        Err(err) => *final(exec) == e && r == SubmitStep::Done { result: Err(err) },
                    }
                },
                SubmitEvent::ExecBo { bo } => match bo {
                    Some(b) => {
                        &&& r == SubmitStep::ReadBinCl {
                            addr: old(exec).args.bin_cl,
                            len: old(exec).args.bin_cl_size,
                            bo: b,
                        }
                        &&& *final(exec) == *old(exec)
                        &&& final(validated)@ == old(validated)@
                    },
                    None => r matches SubmitStep::Done { result } && get_bcl_spec(
                        old(self).bin_bo,
                        *old(exec),
                        old(validated)@,
                        None,
                        None,
                        *final(exec),
                        final(validated)@,
                        result,
                    ),
                },
                SubmitEvent::BinCl { exec_bo, bytes } => r matches SubmitStep::Done { result } && get_bcl_spec(
                    old(self).bin_bo,
                    *old(exec),
                    old(validated)@,
                    Some(exec_bo),
                    bytes,
                    *final(exec),
                    final(validated)@,
                    result,
                ),
            },
    {
        match ev {
            SubmitEvent::Start => {
                if exec.args.bo_handle_count != 0 {
                    return SubmitStep::ReadHandles {
                        addr: exec.args.bo_handles,
                        count: exec.args.bo_handle_count,
                    };
                }
                let _ = self.vc4_cl_lookup_bos(exec, None);
                assert(*exec == (vc4_exec_info { bo_count: 0, ..*old(exec) }));
                self.submit_bin_stage(exec)
            },
            SubmitEvent::Handles { handles } => {
                match self.vc4_cl_lookup_bos(exec, handles) {
                    Ok(()) => self.submit_bin_stage(exec),
                    Err(e) => SubmitStep::Done { result: Err(e) },
                }
            },
            SubmitEvent::ExecBo { bo } => match bo {
                Some(b) => SubmitStep::ReadBinCl { addr: exec.args.bin_cl, len: exec.args.bin_cl_size, bo: b },
                None => {
                    let result = self.vc4_get_bcl(exec, None, None, validated);
                    SubmitStep::Done { result }
                },
            },
            SubmitEvent::BinCl { exec_bo, bytes } => {
                let result = self.vc4_get_bcl(exec, Some(exec_bo), bytes, validated);
                SubmitStep::Done { result }
            },
        }
    }
}

} // verus!
