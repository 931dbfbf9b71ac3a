use nova_gfx::chain::Chain;
use nova_gfx::frames::{Frames, Phase, FRAMES_IN_FLIGHT};
use nova_gfx::sync::FenceState;
use nova_gfx::types::Stage;

#[test]
fn chain_goes_round() {
    let mut chain = Chain::new(&vec![10, 20, 30]);
    assert_eq!(chain.len(), 3);
    assert_eq!(chain.index(), 0);
    assert_eq!(chain.current(), 10);
    assert_eq!(chain.next(), 20);
    assert_eq!(chain.current(), 20);
    assert_eq!(chain.next(), 30);
    assert_eq!(chain.next(), 10);
    assert_eq!(chain.index(), 0);
    assert_eq!(chain.next(), 20);
    assert_eq!(chain.index(), 1);
}

#[test]
fn chain_index_stays_below_the_length() {
    let mut chain = Chain::new(&vec![1, 2, 3, 4, 5]);
    for _ in 0..12 {
        chain.next();
        assert!(chain.index() < chain.len());
    }
    assert_eq!(chain.index(), 12 % 5);
}

#[test]
fn chain_of_one_stays_on_its_slot() {
    let mut chain = Chain::new(&vec![7]);
    assert_eq!(chain.next(), 7);
    assert_eq!(chain.next(), 7);
    assert_eq!(chain.index(), 0);
}

#[test]
fn chain_keeps_more_than_fits_inline() {
    let handles: Vec<u64> = (100..110).collect();
    let mut chain = Chain::new(&handles);
    assert_eq!(chain.len(), 10);
    for round in 0..25usize {
        let expected = handles[(round + 1) % 10];
        assert_eq!(chain.next(), expected);
    }
}

#[test]
fn empty_chain_has_no_slots() {
    let chain = Chain::new(&vec![]);
    assert_eq!(chain.len(), 0);
    assert_eq!(chain.index(), 0);
}

fn frames() -> Frames {
    assert_eq!(FRAMES_IN_FLIGHT, 3);
    Frames::new(&vec![1, 2, 3], &vec![11, 12, 13], &vec![21, 22, 23])
}

#[test]
fn new_frames_are_idle_with_signaled_fences() {
    let frames = frames();
    assert_eq!(frames.len(), 3);
    assert_eq!(frames.phase(), Phase::Idle);
    assert_eq!(frames.slot(), 0);
    assert_eq!(frames.states, vec![FenceState::Signaled; 3]);
    assert!(frames.submissions.iter().all(|s| s.is_empty()));
}

#[test]
fn a_frame_uses_the_resources_of_its_slot() {
    let mut frames = frames();
    assert_eq!(frames.begin_frame(), 2);
    assert_eq!(frames.phase(), Phase::Waiting);
    assert_eq!(frames.slot(), 1);
    assert!(frames.fence_waited().is_empty());
    assert_eq!(frames.phase(), Phase::Recording);
    assert_eq!(frames.states[1], FenceState::Unsignaled);
    let order = frames.submit_frame(vec![70, 71]);
    assert_eq!(order.command_buffers, vec![70, 71]);
    assert_eq!(order.wait_semaphore, 12);
    assert_eq!(order.wait_stage, Stage::ColorAttachmentOutput);
    assert_eq!(order.signal_semaphore, 22);
    assert_eq!(order.fence, 2);
    assert_eq!(frames.phase(), Phase::Idle);
    assert_eq!(frames.states[1], FenceState::Pending);
    assert_eq!(frames.submissions[1], vec![70, 71]);
}

#[test]
fn more_frames_than_slots_never_touch_a_slot_before_its_fence_was_waited_for() {
    let mut frames = frames();
    let slots = frames.len();
    let mut in_flight: Vec<Option<Vec<u64>>> = vec![None; slots];
    for frame in 0..10u64 {
        let before_states = frames.states.clone();
        let before_submissions = frames.submissions.clone();
        let fence = frames.begin_frame();
        let slot = frames.slot();
        assert_eq!(slot, ((frame + 1) % slots as u64) as usize);
        assert_eq!(fence, slot as u64 + 1);
        assert_eq!(frames.states, before_states);
        assert_eq!(frames.submissions, before_submissions);
        assert_ne!(frames.states[slot], FenceState::Unsignaled);

        let released = frames.fence_waited();
        assert_eq!(released, in_flight[slot].take().unwrap_or_default());
        assert_eq!(frames.states[slot], FenceState::Unsignaled);
        for other in 0..slots {
            if other != slot {
                assert_eq!(frames.states[other], before_states[other]);
                assert_eq!(frames.submissions[other], before_submissions[other]);
            }
        }

        let commands = vec![frame * 2, frame * 2 + 1];
        let order = frames.submit_frame(commands.clone());
        assert_eq!(order.fence, fence);
        assert_eq!(order.command_buffers, commands);
        in_flight[slot] = Some(commands.clone());
        for other in 0..slots {
            if other != slot {
                assert_eq!(frames.states[other], before_states[other]);
                assert_eq!(frames.submissions[other], before_submissions[other]);
            }
        }
        assert_eq!(frames.states[slot], FenceState::Pending);
        assert_eq!(frames.submissions[slot], commands);
    }
    let pending = frames.states.iter().filter(|s| **s == FenceState::Pending).count();
    assert_eq!(pending, slots);
}

#[test]
fn a_slot_rests_while_the_others_take_their_turn() {
    let mut frames = frames();
    frames.begin_frame();
    frames.fence_waited();
    frames.submit_frame(vec![5]);
    let slot = frames.slot();
    for frame in 0..2u64 {
        frames.begin_frame();
        frames.fence_waited();
        frames.submit_frame(vec![frame + 50]);
        assert_eq!(frames.submissions[slot], vec![5]);
        assert_eq!(frames.states[slot], FenceState::Pending);
    }
    frames.begin_frame();
    assert_eq!(frames.slot(), slot);
    assert_eq!(frames.fence_waited(), vec![5]);
}
