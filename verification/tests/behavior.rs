use else_model::action::Action;
use else_model::behavior::{CharacterRoutine, MultiplierCharacterRoutine, Stimulus, VoidCharacterRoutine};
use else_model::timeframe::TimeFrame;

#[test]
fn void_routine_never_acts() {
    let timeframe = TimeFrame::new(4, 0);
    let routine = CharacterRoutine::Void(VoidCharacterRoutine(9));
    assert!(routine.stimulate(Stimulus::Time(&timeframe)).is_none());
    assert!(routine.stimulate(Stimulus::Interface()).is_none());
    assert_eq!(VoidCharacterRoutine::idle_line("Black Cat"), "< I am Black Cat and I have nothing to do. >");
}

#[test]
fn multiplier_routine_acts_through_its_dispatch() {
    let timeframe = TimeFrame::new(4, 0);
    let routine = CharacterRoutine::Multiplier(MultiplierCharacterRoutine(9));
    match routine.stimulate(Stimulus::Time(&timeframe)) {
        Some(actions) => {
            assert_eq!(actions.len(), 1);
            match &actions[0] {
                Action::Multiply(a) => {
                    assert_eq!(a.base.frame, 4);
                    assert_eq!(a.base.thing_uid, 9);
                },
                _ => panic!("expected a multiply action"),
            }
        },
        None => panic!("expected an action"),
    }
    assert!(routine.stimulate(Stimulus::Interface()).is_none());
}
