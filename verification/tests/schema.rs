use greeter::schema::{Mutation, Query};
use greeter::state::SharedState;

#[test]
fn hello_world_greets_the_given_text() {
    assert_eq!(Query::hello_world("World".to_string()), "Hello World!");
    assert_eq!(Query::hello_world("Ada".to_string()), "Hello Ada!");
    assert_eq!(Query::hello_world("名前".to_string()), "Hello 名前!");
}

#[test]
fn hello_world_accepts_the_empty_text() {
    assert_eq!(Query::hello_world(String::new()), "Hello !");
}

#[test]
fn a_new_state_holds_unknown() {
    let state = SharedState::new();
    assert_eq!(state.read(), "Unknown");
}

#[test]
fn hello_on_a_new_state_greets_unknown() {
    let state = SharedState::new();
    assert_eq!(Query::hello(&state), "Hello Unknown!");
}

#[test]
fn write_replaces_the_name_held() {
    let mut state = SharedState::new();
    state.write("Ada".to_string());
    assert_eq!(state.read(), "Ada");
    state.write("Grace".to_string());
    assert_eq!(state.read(), "Grace");
    state.write(String::new());
    assert_eq!(state.read(), "");
}

#[test]
fn read_hands_out_a_copy() {
    let mut state = SharedState::new();
    let mut copy = state.read();
    copy.push_str(" Pleasure");
    assert_eq!(state.read(), "Unknown");
    state.write("Ada".to_string());
    assert_eq!(copy, "Unknown Pleasure");
}

#[test]
fn hello_after_set_name_greets_the_name_set() {
    for name in ["Ada", "", " ", "Grace Hopper", "名前", "Unknown", "Nice name!"] {
        let mut state = SharedState::new();
        Mutation::set_name(name.to_string(), &mut state);
        assert_eq!(Query::hello(&state), format!("Hello {name}!"));
    }
}

#[test]
fn the_last_name_set_is_the_one_greeted() {
    let mut state = SharedState::new();
    Mutation::set_name("Ada".to_string(), &mut state);
    Mutation::set_name("Grace".to_string(), &mut state);
    assert_eq!(Query::hello(&state), "Hello Grace!");
}

#[test]
fn set_name_confirms_with_the_same_text_for_every_name() {
    for name in ["Ada", "", "   ", "\t\n", "名前", "🦀🦀", "Nice name!"] {
        let mut state = SharedState::new();
        assert_eq!(Mutation::set_name(name.to_string(), &mut state), "Nice name!");
        assert_eq!(state.read(), name);
    }
}

#[test]
fn hello_repeats_its_answer_until_a_name_is_set() {
    let mut state = SharedState::new();
    let first = Query::hello(&state);
    for _ in 0..5 {
        assert_eq!(Query::hello(&state), first);
        assert_eq!(Query::hello_world("World".to_string()), "Hello World!");
    }
    Mutation::set_name("Ada".to_string(), &mut state);
    let second = Query::hello(&state);
    assert_ne!(second, first);
    for _ in 0..5 {
        assert_eq!(Query::hello(&state), second);
    }
}

#[test]
fn queries_leave_the_name_held_alone() {
    let mut state = SharedState::new();
    state.write("Ada".to_string());
    Query::hello(&state);
    Query::hello_world("World".to_string());
    assert_eq!(state.read(), "Ada");
}

#[test]
fn unknown_then_ada() {
    let mut state = SharedState::new();
    assert_eq!(Query::hello(&state), "Hello Unknown!");
    assert_eq!(Mutation::set_name("Ada".to_string(), &mut state), "Nice name!");
    assert_eq!(Query::hello(&state), "Hello Ada!");
}
