use udp::{HookPipeline, InnerContext, PipelineStatus};

/// Runs a pipeline of hooks, each given as a closure over the context, and
/// returns the indices of the hooks that ran.
fn run(hooks: &[fn(&mut InnerContext)], ctx: &mut InnerContext) -> Vec<usize> {
    let mut ran = Vec::new();
    let mut p = HookPipeline::start(hooks.len());
    while let Some(i) = p.next_hook() {
        hooks[i](ctx);
        ran.push(i);
        p.after_hook(ctx.is_aborted());
    }
    ran
}

fn aborting(ctx: &mut InnerContext) {
    ctx.abort();
}

fn plain(_ctx: &mut InnerContext) {}

#[test]
fn first_hook_abort_skips_the_rest() {
    let mut ctx = InnerContext::new();
    let ran = run(&[aborting, plain, plain], &mut ctx);
    assert_eq!(ran, vec![0]);
}

#[test]
fn all_hooks_run_in_order_without_abort() {
    let mut ctx = InnerContext::new();
    let ran = run(&[plain, plain, plain], &mut ctx);
    assert_eq!(ran, vec![0, 1, 2]);
}

#[test]
fn middle_hook_abort() {
    let mut ctx = InnerContext::new();
    let ran = run(&[plain, aborting, plain], &mut ctx);
    assert_eq!(ran, vec![0, 1]);
}

#[test]
fn pipeline_states() {
    let p = HookPipeline::start(0);
    assert_eq!(p.status(), PipelineStatus::Completed);
    assert!(p.is_finished());
    assert_eq!(p.next_hook(), None);

    let mut p = HookPipeline::start(2);
    assert_eq!(p.status(), PipelineStatus::Running(0));
    p.after_hook(false);
    assert_eq!(p.status(), PipelineStatus::Running(1));
    p.after_hook(false);
    assert_eq!(p.status(), PipelineStatus::Completed);

    let mut p = HookPipeline::start(2);
    p.after_hook(true);
    assert_eq!(p.status(), PipelineStatus::Aborted);
    assert_eq!(p.next_hook(), None);
    p.after_hook(false);
    assert_eq!(p.status(), PipelineStatus::Aborted);
}
