use raidprotect::permission::{Permissions, BAN_MEMBERS, KICK_MEMBERS};
use raidprotect::policy::{
    authorize, check_command_permissions, check_user_permissions, Actor, Decision, DenyReason,
};

fn actor(user_id: u64, bits: u64, is_owner: bool, rank: i64) -> Actor {
    Actor { user_id, permissions: Permissions::from_bits(bits), is_owner, hierarchy_rank: rank }
}

#[test]
fn equal_rank_is_an_author_hierarchy_violation() {
    let author = actor(1, 0, false, 5);
    let target = actor(2, 0, false, 5);
    let bot = actor(3, BAN_MEMBERS, false, 10);
    let d = authorize(&author, &target, &bot, Permissions::from_bits(BAN_MEMBERS));
    assert_eq!(d, Decision::Denied(DenyReason::AuthorHierarchyViolation));
}

#[test]
fn owner_target_is_denied_whatever_else_holds() {
    let author = actor(1, u64::MAX, false, 100);
    let target = actor(2, 0, true, 0);
    let bot = actor(3, u64::MAX, false, 100);
    let d = authorize(&author, &target, &bot, Permissions::from_bits(KICK_MEMBERS));
    assert_eq!(d, Decision::Denied(DenyReason::OwnerBypass));
    let weak_bot = actor(3, 0, false, -1);
    let d = authorize(&author, &target, &weak_bot, Permissions::from_bits(KICK_MEMBERS));
    assert_eq!(d, Decision::Denied(DenyReason::OwnerBypass));
}

#[test]
fn missing_bot_permission_comes_before_hierarchy() {
    let author = actor(1, 0, false, 50);
    let target = actor(2, 0, false, 1);
    let bot = actor(3, KICK_MEMBERS, false, 60);
    let d = authorize(&author, &target, &bot, Permissions::from_bits(BAN_MEMBERS));
    assert_eq!(d, Decision::Denied(DenyReason::BotMissingPermission));
    // Even with the hierarchy also failing, the permission is named first.
    let low_author = actor(1, 0, false, 0);
    let d = authorize(&low_author, &target, &bot, Permissions::from_bits(BAN_MEMBERS));
    assert_eq!(d, Decision::Denied(DenyReason::BotMissingPermission));
}

#[test]
fn target_at_bot_rank_is_a_bot_hierarchy_violation() {
    let author = actor(1, 0, false, 20);
    let target = actor(2, 0, false, 10);
    let bot = actor(3, BAN_MEMBERS | KICK_MEMBERS, false, 10);
    let d = authorize(&author, &target, &bot, Permissions::from_bits(KICK_MEMBERS));
    assert_eq!(d, Decision::Denied(DenyReason::BotHierarchyViolation));
}

#[test]
fn allowed_when_every_check_passes() {
    let author = actor(1, 0, false, 20);
    let target = actor(2, 0, false, 9);
    let bot = actor(3, BAN_MEMBERS | KICK_MEMBERS, false, 10);
    let d = authorize(&author, &target, &bot, Permissions::from_bits(BAN_MEMBERS));
    assert_eq!(d, Decision::Allowed);
}

#[test]
fn allowed_matches_the_four_conditions_on_a_grid() {
    for a in -2i64..3 {
        for t in -2i64..3 {
            for b in -2i64..3 {
                for owner in [false, true] {
                    for bits in [0u64, KICK_MEMBERS, BAN_MEMBERS, KICK_MEMBERS | BAN_MEMBERS] {
                        let author = actor(1, 0, false, a);
                        let target = actor(2, 0, owner, t);
                        let bot = actor(3, bits, false, b);
                        let req = Permissions::from_bits(BAN_MEMBERS);
                        let expected = t < a && t < b && bits & BAN_MEMBERS == BAN_MEMBERS && !owner;
                        let got = authorize(&author, &target, &bot, req) == Decision::Allowed;
                        assert_eq!(got, expected);
                    }
                }
            }
        }
    }
}

#[test]
fn split_checks_agree_with_authorize() {
    let author = actor(1, 0, false, 5);
    let target = actor(2, 0, false, 3);
    let bot = actor(3, 0, false, 2);
    assert_eq!(
        check_user_permissions(&target, &bot, Permissions::from_bits(KICK_MEMBERS)),
        Some(DenyReason::BotMissingPermission)
    );
    assert_eq!(check_user_permissions(&target, &bot, Permissions::empty()), None);
    assert_eq!(
        check_command_permissions(&target, &author, &bot),
        Some(DenyReason::BotHierarchyViolation)
    );
    let strong_bot = actor(3, 0, false, 4);
    assert_eq!(check_command_permissions(&target, &author, &strong_bot), None);
}

#[test]
fn permission_set_operations() {
    let a = Permissions::from_bits(KICK_MEMBERS | BAN_MEMBERS);
    assert!(a.contains(Permissions::from_bits(KICK_MEMBERS)));
    assert!(a.contains(Permissions::empty()));
    assert!(!Permissions::from_bits(KICK_MEMBERS).contains(a));
    assert_eq!(Permissions::from_bits(KICK_MEMBERS).union(Permissions::from_bits(BAN_MEMBERS)), a);
    assert_eq!(a.difference(Permissions::from_bits(KICK_MEMBERS)).bits, BAN_MEMBERS);
}
