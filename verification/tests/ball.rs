use mini_golf::{restart, RestartPlan};

fn balls_after(balls: usize, plan: RestartPlan) -> usize {
    let left = if plan.despawn && balls > 0 { balls - 1 } else { balls };
    if plan.spawn {
        left + 1
    } else {
        left
    }
}

#[test]
fn restart_replaces_the_only_ball() {
    assert_eq!(
        restart(true, 1),
        RestartPlan {
            despawn: true,
            spawn: true
        }
    );
}

#[test]
fn restart_on_an_empty_course_only_spawns() {
    assert_eq!(
        restart(true, 0),
        RestartPlan {
            despawn: false,
            spawn: true
        }
    );
}

#[test]
fn restart_with_several_balls_takes_none_off() {
    for balls in [2usize, 3, 17, usize::MAX] {
        assert_eq!(
            restart(true, balls),
            RestartPlan {
                despawn: false,
                spawn: true
            }
        );
    }
}

#[test]
fn no_key_no_change() {
    for balls in [0usize, 1, 2, 5, usize::MAX] {
        let plan = restart(false, balls);
        assert_eq!(
            plan,
            RestartPlan {
                despawn: false,
                spawn: false
            }
        );
        assert_eq!(balls_after(balls, plan), balls);
    }
}

#[test]
fn restart_leaves_one_ball_where_there_was_at_most_one() {
    assert_eq!(balls_after(0, restart(true, 0)), 1);
    assert_eq!(balls_after(1, restart(true, 1)), 1);
}

#[test]
fn restart_does_not_mend_a_course_with_several_balls() {
    assert_eq!(balls_after(2, restart(true, 2)), 3);
    assert_eq!(balls_after(9, restart(true, 9)), 10);
}

#[test]
fn repeated_restarts_keep_one_ball() {
    let mut balls: usize = 0;
    for _ in 0..10 {
        balls = balls_after(balls, restart(true, balls));
        assert_eq!(balls, 1);
        balls = balls_after(balls, restart(false, balls));
        assert_eq!(balls, 1);
    }
}
