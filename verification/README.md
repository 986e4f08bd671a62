# vc4

A driver library for the VideoCore IV GPU of the Raspberry Pi 3, written in Verus: every
function in `src/` carries a contract that Verus proves.

- `regs`, `packet`, `drm`: register offsets, control-list packet opcodes and sizes, and the
  ioctl argument structures.
- `bytes`, `cl`: little-endian encodings and the control list that packets are appended to.
- `validate`: checking a binner command list submitted by userspace and copying it, patched,
  into the job's buffer object (`bin_walk` states the whole walk).
- `render`: checking the render setup of a job and writing its render control list, tile by
  tile (`rcl_bytes` states the whole list).
- `gem`: the submit ioctl — buffer object lookup, the layout of the job's buffer object, and the
  steps of a submission.
- `device`: the GPU device, its buffer objects by handle, and the steps of creating, destroying
  and bringing up.
- `boot`, `board`, `gpu_file`: bringing up the board (framebuffer, memory, driver order), the
  triangle self-test's lists, and the GPU device file.

Work that talks to the firmware, maps memory or touches registers is described by the library
as steps; `app/` performs them for a kernel and hands back what came back.
