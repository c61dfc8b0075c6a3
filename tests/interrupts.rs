use kernel_core::interrupt::{
    after_exception, on_irq, Continuation, Exception, Index, PIC_1_OFFSET, PIC_2_OFFSET,
};
use kernel_core::qemu::ExitCode;

#[test]
fn controller_offsets() {
    assert_eq!(PIC_1_OFFSET, 32);
    assert_eq!(PIC_2_OFFSET, 40);
}

#[test]
fn irq_vectors() {
    assert_eq!(Index::Timer.as_u8(), 32);
    assert_eq!(Index::Keyboard.as_u8(), 33);
    assert_eq!(Index::Timer.as_usize(), 32);
    assert_eq!(Index::Keyboard.as_usize(), 33);
}

#[test]
fn timer_irqs_each_acknowledged_once() {
    let n = 7;
    let mut acks = Vec::new();
    for _ in 0..n {
        acks.push(on_irq(Index::Timer, false).end_of_interrupt);
    }
    assert_eq!(acks.iter().filter(|v| **v == 32).count(), n);
    assert!(!on_irq(Index::Timer, true).echo_key);
}

#[test]
fn keyboard_irq_acknowledged_on_decode_failure() {
    let r = on_irq(Index::Keyboard, false);
    assert_eq!(r.end_of_interrupt, 33);
    assert!(!r.echo_key);
    let r = on_irq(Index::Keyboard, true);
    assert_eq!(r.end_of_interrupt, 33);
    assert!(r.echo_key);
}

#[test]
fn breakpoint_resumes_faults_halt() {
    assert_eq!(after_exception(Exception::Breakpoint), Continuation::Resume);
    assert_eq!(after_exception(Exception::DoubleFault), Continuation::Halt);
    assert_eq!(after_exception(Exception::PageFault), Continuation::Halt);
}

#[test]
fn breakpoints_in_a_loop_resume_each_time() {
    let mut counter = 0;
    for _ in 0..5 {
        if after_exception(Exception::Breakpoint) == Continuation::Resume {
            counter += 1;
        }
    }
    assert_eq!(counter, 5);
}

#[test]
fn exit_codes() {
    assert_eq!(ExitCode::Success.code(), 0x10);
    assert_eq!(ExitCode::Failure.code(), 0x11);
}

