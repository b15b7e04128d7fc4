//! The framebuffer in a program's address space.

use crate::flags::{self, build_flags, VmFlags, READ, USER, VALID, WRITE};
use crate::gpu::{self, Framebuffer};
use crate::process::Process;
use crate::space::Mapping;
use crate::sv39::{self, page_range, PAGE_SIZE};
use vstd::prelude::*;
use vstd::string::StringSliceAdditionalSpecFns;

verus! {

/// The address at which every program finds the framebuffer.
pub const FB_VADDR: usize = 0x1000_0000;

/// The answer to a call for the framebuffer's description.
#[derive(Clone, Copy, PartialEq, Eq, Debug)]
pub struct FramebufferReply {
    /// Address, length, width and height.
    pub info: Option<(usize, usize, usize, usize)>,
    /// What to map into the caller's address space first.
    pub map: Option<Mapping>,
}

/// The attributes of a program's own data, and of the framebuffer in its address space.
pub fn user_data_flags() -> (flags: VmFlags)
    ensures
        flags.bits == USER + WRITE + READ + VALID,
        flags.bits == 23,
{
    proof {
        reveal_strlit("U_WRV");
        assert("U_WRV"@ =~= seq!['U', '_', 'W', 'R', 'V']);
        vstd::string::is_ascii_spec_bytes("U_WRV");
        let text = "U_WRV".spec_bytes();
        assert(text[0] == flags::LETTER_U && text[2] == flags::LETTER_W && text[3]
            == flags::LETTER_R && text[4] == flags::LETTER_V);
    }
    build_flags("U_WRV")
}

/// Where a program finds a framebuffer: its pages, the physical page behind the first of them, and
/// the attributes.
pub open spec fn framebuffer_mapping(fb: Framebuffer) -> Mapping {
    Mapping {
        range: sv39::pages_between(FB_VADDR as int, FB_VADDR + fb.len),
        ppn: (fb.ptr as int / PAGE_SIZE as int) as usize,
        flags: VmFlags { bits: (USER + WRITE + READ + VALID) as usize },
    }
}

/// What a description of the framebuffer maps, `mapped` being whether it is mapped already.
pub open spec fn mapped_now(mapped: bool, fb: Framebuffer) -> Option<Mapping> {
    if fb.usable() && !mapped {
        Some(framebuffer_mapping(fb))
    } else {
        None
    }
}

/// Whether the framebuffer is mapped after a description of it, `mapped` being whether it was
/// before.
pub open spec fn mapped_then(mapped: bool, fb: Framebuffer) -> bool {
    mapped || fb.usable()
}

/// Whether the framebuffer is mapped after the first `n` of a series of descriptions, none having
/// been given before.
pub open spec fn mapped_after(fbs: Seq<Framebuffer>, n: int) -> bool
    decreases n,
{
    if n <= 0 {
        false
    } else {
        mapped_then(mapped_after(fbs, n - 1), fbs[n - 1])
    }
}

/// Describes the framebuffer to a process, and maps it into its address space with the first
/// description.
///
/// The process sees it at a fixed address.
pub fn framebuffer_info<S>(process: &mut Process<S>, fb: &Framebuffer) -> (reply: FramebufferReply)
    requires
        fb.usable() && !old(process).fb_mapped ==> FB_VADDR + fb.len <= usize::MAX,
    ensures
        reply.info == if fb.usable() {
            Some((FB_VADDR, fb.len, fb.width, fb.height))
        } else {
            None
        },
        reply.map == mapped_now(old(process).fb_mapped, *fb),
        reply.info is Some <==> fb.ptr != 0 && fb.len != 0 && fb.width != 0 && fb.height != 0,
        reply.info is Some ==> reply.info->0 == (0x1000_0000usize, fb.len, fb.width, fb.height),
        reply.map is Some <==> reply.info is Some && !old(process).fb_mapped,
        reply.map matches Some(mapping) ==> {
            &&& mapping.range.start == 0x1_0000
            &&& (0x1000_0000 + fb.len) % 0x80_0000_0000 <= mapping.range.end * 4096 < (0x1000_0000
                + fb.len) % 0x80_0000_0000 + 4096
            &&& mapping.ppn == fb.ptr as int / 4096
            &&& mapping.flags.bits == 23
        },
        final(process).fb_mapped == (old(process).fb_mapped || reply.info is Some),
        final(process).fb_mapped == mapped_then(old(process).fb_mapped, *fb),
        final(process).context == old(process).context,
        final(process).satp == old(process).satp,
        final(process).address_space == old(process).address_space,
        final(process).heap_bottom == old(process).heap_bottom,
        final(process).program_brk == old(process).program_brk,
        final(process).syscall_counts == old(process).syscall_counts,
{
    match gpu::framebuffer_info(fb) {
        None => FramebufferReply { info: None, map: None },
        Some((fb_ptr, fb_len, width, height)) => {
            let map = if !process.fb_mapped {
                process.fb_mapped = true;
                Some(
                    Mapping {
                        range: page_range(FB_VADDR, FB_VADDR + fb_len),
                        ppn: fb_ptr / PAGE_SIZE,
                        flags: user_data_flags(),
                    },
                )
            } else {
                None
            };
            FramebufferReply { info: Some((FB_VADDR, fb_len, width, height)), map }
        },
    }
}

/// Once mapped, the framebuffer stays mapped.
proof fn lemma_stays_mapped(fbs: Seq<Framebuffer>, i: int, j: int)
    requires
        0 <= i <= j,
        mapped_after(fbs, i),
    ensures
        mapped_after(fbs, j),
    decreases j,
{
    if i < j {
        lemma_stays_mapped(fbs, i, j - 1);
    }
}

/// However often a process asks for the framebuffer, it is mapped for it at most once, and that
/// with the first description that it gets.
pub proof fn law_framebuffer_is_mapped_once(fbs: Seq<Framebuffer>, i: int, j: int)
    requires
        0 <= i < j < fbs.len(),
        fbs[i].usable(),
    ensures
        mapped_now(mapped_after(fbs, j), fbs[j]) is None,
        (forall|k: int| 0 <= k < i ==> !(#[trigger] fbs[k]).usable()) ==> mapped_now(
            mapped_after(fbs, i),
            fbs[i],
        ) == Some(framebuffer_mapping(fbs[i])),
{
    lemma_stays_mapped(fbs, i + 1, j);
    if forall|k: int| 0 <= k < i ==> !(#[trigger] fbs[k]).usable() {
        lemma_not_mapped_yet(fbs, i);
    }
}

/// Without a usable framebuffer nothing is mapped.
proof fn lemma_not_mapped_yet(fbs: Seq<Framebuffer>, n: int)
    requires
        0 <= n <= fbs.len(),
        forall|k: int| 0 <= k < n ==> !(#[trigger] fbs[k]).usable(),
    ensures
        !mapped_after(fbs, n),
    decreases n,
{
    if n > 0 {
        lemma_not_mapped_yet(fbs, n - 1);
        assert(!fbs[n - 1].usable());
    }
}

/// What a program draws is what the GPU shows: byte `k` of the framebuffer at its fixed address is
/// byte `k` of a framebuffer that starts on a page boundary.
pub proof fn law_program_draws_to_the_framebuffer(fb: Framebuffer, k: int)
    requires
        fb.ptr as int % PAGE_SIZE as int == 0,
        0 <= k < fb.len,
        FB_VADDR + fb.len < sv39::V_ADDR_COUNT,
    ensures
        ({
            let mapping = framebuffer_mapping(fb);
            let vpn = sv39::floor_page(FB_VADDR + k);
            &&& mapping.range.holds(vpn)
            &&& (mapping.ppn + (vpn - mapping.range.start)) * PAGE_SIZE + (FB_VADDR + k)
                % PAGE_SIZE as int == fb.ptr + k
        }),
{
}

/// The framebuffer is mapped for a process exactly when it is first described to it, whole, from a
/// fixed address on, for reading and writing by the program; after that it stays mapped.
pub proof fn law_framebuffer_is_mapped_whole(mapped: bool, fb: Framebuffer, byte: int)
    requires
        0x1000_0000 + fb.len < 0x80_0000_0000,
    ensures
        mapped_now(mapped, fb) is Some <==> !mapped && fb.ptr != 0 && fb.len != 0 && fb.width != 0
            && fb.height != 0,
        mapped_then(mapped, fb) == (mapped || mapped_now(mapped, fb) is Some),
        mapped_now(mapped, fb) matches Some(mapping) ==> {
            &&& mapping.range.start == 0x1_0000
            &&& 0x1000_0000 <= byte < 0x1000_0000 + fb.len ==> mapping.range.start * 4096 <= byte
                < mapping.range.end * 4096
            &&& mapping.range.end * 4096 < 0x1000_0000 + fb.len + 4096
            &&& mapping.ppn == fb.ptr as int / 4096
            &&& mapping.flags.bits == 23
        },
{
}

} // verus!
