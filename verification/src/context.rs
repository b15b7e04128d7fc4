//! The saved registers of a thread, kept by `tg_kernel_context`.

use tg_kernel_context::LocalContext;
use vstd::prelude::*;

verus! {

/// The saved state of a thread, opaque here: it is known by the four names below.
#[verifier::external_type_specification]
#[verifier::external_body]
pub struct ExLocalContext(LocalContext);

/// The general registers that a context holds, by number from 1 to 31.
pub uninterp spec fn context_registers(ctx: LocalContext) -> Map<int, usize>;

/// The address at which a context's thread goes on.
pub uninterp spec fn context_pc(ctx: LocalContext) -> usize;

/// Whether a context's thread runs in supervisor mode.
pub uninterp spec fn context_supervisor(ctx: LocalContext) -> bool;

/// Whether a context's thread runs with interrupts open.
pub uninterp spec fn context_interrupt(ctx: LocalContext) -> bool;

/// `LocalContext::a` reads argument register `n`, which is general register `n + 10`. It panics
/// beyond register 31.
pub assume_specification[ LocalContext::a ](ctx: &LocalContext, n: usize) -> (value: usize)
    requires
        n <= 21,
    ensures
        value == context_registers(*ctx)[n + 10],
;

/// `LocalContext::a_mut` lends argument register `n`, which is general register `n + 10`: what is
/// stored through it becomes the register's value, and nothing else changes. It panics beyond
/// register 31.
pub assume_specification[ LocalContext::a_mut ](ctx: &mut LocalContext, n: usize) -> (slot:
    &mut usize)
    requires
        n <= 21,
    ensures
        *slot == context_registers(*old(ctx))[n + 10],
        context_registers(*final(ctx)) == context_registers(*old(ctx)).insert(
            n + 10,
            *final(slot),
        ),
        context_pc(*final(ctx)) == context_pc(*old(ctx)),
        context_supervisor(*final(ctx)) == context_supervisor(*old(ctx)),
        context_interrupt(*final(ctx)) == context_interrupt(*old(ctx)),
;

/// `LocalContext::sp_mut` lends the stack pointer, which is general register 2: what is stored
/// through it becomes the register's value, and nothing else changes.
pub assume_specification[ LocalContext::sp_mut ](ctx: &mut LocalContext) -> (slot: &mut usize)
    ensures
        *slot == context_registers(*old(ctx))[2],
        context_registers(*final(ctx)) == context_registers(*old(ctx)).insert(2, *final(slot)),
        context_pc(*final(ctx)) == context_pc(*old(ctx)),
        context_supervisor(*final(ctx)) == context_supervisor(*old(ctx)),
        context_interrupt(*final(ctx)) == context_interrupt(*old(ctx)),
;

/// `LocalContext::move_next` moves a thread on by one instruction of four bytes, wrapping at the
/// end of the address range, and changes nothing else.
pub assume_specification[ LocalContext::move_next ](ctx: &mut LocalContext)
    ensures
        context_pc(*final(ctx)) as int == (context_pc(*old(ctx)) + 4) % (usize::MAX + 1),
        context_registers(*final(ctx)) == context_registers(*old(ctx)),
        context_supervisor(*final(ctx)) == context_supervisor(*old(ctx)),
        context_interrupt(*final(ctx)) == context_interrupt(*old(ctx)),
;

/// `LocalContext::thread` makes the context of a kernel thread that starts at `pc` in supervisor
/// mode, with interrupts as asked for and all registers 0.
pub assume_specification[ LocalContext::thread ](pc: usize, interrupt: bool) -> (ctx: LocalContext)
    ensures
        context_pc(ctx) == pc,
        context_supervisor(ctx),
        context_interrupt(ctx) == interrupt,
        context_registers(ctx) == Map::new(|n: int| 1 <= n <= 31, |n: int| 0usize),
;

/// `LocalContext::user` makes the context of a user thread that starts at `pc`, with interrupts
/// open and all registers 0.
pub assume_specification[ LocalContext::user ](pc: usize) -> (ctx: LocalContext)
    ensures
        context_pc(ctx) == pc,
        !context_supervisor(ctx),
        context_interrupt(ctx),
        context_registers(ctx) == Map::new(|n: int| 1 <= n <= 31, |n: int| 0usize),
;

/// The top of the scheduler's stack.
pub const SCHEDULE_STACK_TOP: u64 = 0x40_0000_0000;

/// The context of the thread that schedules the user processes: it starts at `entry`, in
/// supervisor mode, with interrupts closed, on the scheduler's stack.
pub fn scheduling_thread(entry: usize) -> (ctx: LocalContext)
    ensures
        context_pc(ctx) == entry,
        context_supervisor(ctx),
        !context_interrupt(ctx),
        context_registers(ctx)[2] == 0x40_0000_0000u64 as usize,
        context_registers(ctx) == Map::new(
            |n: int| 1 <= n <= 31,
            |n: int|
                if n == 2 {
                    SCHEDULE_STACK_TOP as usize
                } else {
                    0
                },
        ),
{
    let mut ctx = LocalContext::thread(entry, false);
    *ctx.sp_mut() = SCHEDULE_STACK_TOP as usize;
    ctx
}

/// What a thread resumes with once a call of its has been answered: the registers of `answers`
/// are replaced and it goes on behind the call; the rest stays.
pub open spec fn resumed(
    before: LocalContext,
    after: LocalContext,
    answers: Map<int, usize>,
) -> bool {
    &&& context_registers(after) == context_registers(before).union_prefer_right(answers)
    &&& context_pc(after) as int == (context_pc(before) + 4) % (usize::MAX + 1)
    &&& context_supervisor(after) == context_supervisor(before)
    &&& context_interrupt(after) == context_interrupt(before)
}

/// Four bytes further on is just that, or one turn of the address range less.
proof fn lemma_four_bytes_on(pc: usize, next: usize)
    requires
        next as int == (pc + 4) % (usize::MAX + 1),
    ensures
        next == pc + 4 || next == pc + 4 - (usize::MAX + 1),
{
    let turn = usize::MAX + 1;
    if pc + 4 < turn {
        vstd::arithmetic::div_mod::lemma_small_mod((pc + 4) as nat, turn as nat);
    } else {
        vstd::arithmetic::div_mod::lemma_fundamental_div_mod_converse(
            pc + 4,
            turn,
            1,
            pc + 4 - turn,
        );
    }
}

/// Answers a call in the first argument register.
pub fn answer(ctx: &mut LocalContext, value: usize)
    ensures
        resumed(*old(ctx), *final(ctx), map![10int => value]),
        context_registers(*final(ctx)) == context_registers(*old(ctx)).insert(10, value),
        context_pc(*final(ctx)) == context_pc(*old(ctx)) + 4 || context_pc(*final(ctx)) == context_pc(
            *old(ctx),
        ) + 4 - (usize::MAX + 1),
        context_supervisor(*final(ctx)) == context_supervisor(*old(ctx)),
        context_interrupt(*final(ctx)) == context_interrupt(*old(ctx)),
{
    *ctx.a_mut(0) = value;
    ctx.move_next();
    assert(context_registers(*ctx) =~= context_registers(*old(ctx)).union_prefer_right(
        map![10int => value],
    ));
    proof {
        lemma_four_bytes_on(context_pc(*old(ctx)), context_pc(*ctx));
    }
}

/// Answers a call in the first four argument registers.
pub fn answer4(ctx: &mut LocalContext, values: (usize, usize, usize, usize))
    ensures
        resumed(
            *old(ctx),
            *final(ctx),
            map![10int => values.0, 11int => values.1, 12int => values.2, 13int => values.3],
        ),
        context_registers(*final(ctx)) == context_registers(*old(ctx)).insert(10, values.0).insert(
            11,
            values.1,
        ).insert(12, values.2).insert(13, values.3),
        context_pc(*final(ctx)) == context_pc(*old(ctx)) + 4 || context_pc(*final(ctx)) == context_pc(
            *old(ctx),
        ) + 4 - (usize::MAX + 1),
        context_supervisor(*final(ctx)) == context_supervisor(*old(ctx)),
        context_interrupt(*final(ctx)) == context_interrupt(*old(ctx)),
{
    *ctx.a_mut(0) = values.0;
    *ctx.a_mut(1) = values.1;
    *ctx.a_mut(2) = values.2;
    *ctx.a_mut(3) = values.3;
    ctx.move_next();
    assert(context_registers(*ctx) =~= context_registers(*old(ctx)).union_prefer_right(
        map![10int => values.0, 11int => values.1, 12int => values.2, 13int => values.3],
    ));
    proof {
        lemma_four_bytes_on(context_pc(*old(ctx)), context_pc(*ctx));
    }
}

/// A thread whose call has been answered goes on at the instruction of four bytes behind it, finds
/// the answers in their registers, and finds everything else as it left it.
pub proof fn law_answered_thread_goes_on_behind_its_call(
    before: LocalContext,
    after: LocalContext,
    answers: Map<int, usize>,
    n: int,
)
    requires
        resumed(before, after, answers),
    ensures
        answers.contains_key(n) ==> context_registers(after)[n] == answers[n],
        !answers.contains_key(n) && context_registers(before).contains_key(n)
            ==> context_registers(after)[n] == context_registers(before)[n],
        context_pc(after) == context_pc(before) + 4 || context_pc(after) == context_pc(before) + 4 - (
        usize::MAX + 1),
        context_supervisor(after) == context_supervisor(before),
        context_interrupt(after) == context_interrupt(before),
{
    lemma_four_bytes_on(context_pc(before), context_pc(after));
}

} // verus!
