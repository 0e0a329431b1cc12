use posterbot_constructor::models::Admin;
use posterbot_constructor::plans::{
    free_plan_freeze_list, is_pro, is_pro_plan_name, must_enforce_free_limit, new_admin_frozen, toggled_plan,
    unfreeze_blocked,
};

#[test]
fn the_paid_plan_runs_until_it_expires() {
    assert!(is_pro(Some(1_000), 999));
    assert!(!is_pro(Some(1_000), 1_000));
    assert!(!is_pro(None, 0));
}

#[test]
fn switching_the_plan_flips_it() {
    assert_eq!(toggled_plan(true), "free");
    assert_eq!(toggled_plan(false), "pro");
    assert!(is_pro_plan_name("pro"));
    assert!(!is_pro_plan_name("Pro"));
    assert!(!is_pro_plan_name("free"));
}

#[test]
fn the_free_plan_keeps_one_active_moderator() {
    assert!(!new_admin_frozen("free", 0));
    assert!(new_admin_frozen("free", 1));
    assert!(!new_admin_frozen("pro", 5));
    assert!(unfreeze_blocked("free", 1));
    assert!(!unfreeze_blocked("free", 0));
    assert!(!unfreeze_blocked("pro", 3));
    assert!(must_enforce_free_limit("free", 2));
    assert!(!must_enforce_free_limit("free", 1));
    assert!(!must_enforce_free_limit("pro", 9));
}

#[test]
fn enforcing_the_free_plan_keeps_the_first_moderator() {
    let a = |id: i32, user_id: i64, frozen: bool| Admin {
        id,
        bot_id: 1,
        user_id,
        user_name: String::new(),
        frozen,
    };
    let admins = [a(1, 100, false), a(2, 5, true), a(3, 6, false), a(4, 7, false)];
    assert_eq!(free_plan_freeze_list(&admins, 100), vec![6, 7]);
    assert_eq!(free_plan_freeze_list(&admins[..2], 100), Vec::<i64>::new());
    assert_eq!(free_plan_freeze_list(&[], 100), Vec::<i64>::new());
}
