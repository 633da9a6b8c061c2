use std::collections::HashMap;

use vc_presence::fun::{judge_attitude, parse_u8, AttitudeJudgement};
use vc_presence::moderation::purge_fetch_limit;
use vc_presence::parental_control::{parental_decision, parental_timeout, ParentalDecision};
use vc_presence::roles::{highest_role_pos, holds_role, toggle_role, RoleChange};
use vc_presence::vcping::{vcping, SubscriptionReply};

#[test]
fn parse_u8_reads_decimal() {
    assert_eq!(parse_u8("0"), Some(0));
    assert_eq!(parse_u8("42"), Some(42));
    assert_eq!(parse_u8("+7"), Some(7));
    assert_eq!(parse_u8("007"), Some(7));
    assert_eq!(parse_u8("255"), Some(255));
    assert_eq!(parse_u8("256"), None);
    assert_eq!(parse_u8("99999"), None);
    assert_eq!(parse_u8(""), None);
    assert_eq!(parse_u8("+"), None);
    assert_eq!(parse_u8("-1"), None);
    assert_eq!(parse_u8(" 5"), None);
    assert_eq!(parse_u8("5."), None);
}

#[test]
fn parse_u8_agrees_with_std() {
    for s in ["0", "1", "12", "+3", "255", "256", "", "+", "-0", "1a", "٣", "00255", "+-1"] {
        assert_eq!(parse_u8(s), s.parse::<u8>().ok(), "{s}");
    }
}

#[test]
fn attitude_judgements() {
    assert_eq!(judge_attitude(false, "80", false, 1000), AttitudeJudgement::NotUnderstood);
    assert_eq!(judge_attitude(true, "abc", false, 1000), AttitudeJudgement::NotUnderstood);
    assert_eq!(judge_attitude(true, "101", false, 1000), AttitudeJudgement::NotUnderstood);
    assert_eq!(
        judge_attitude(true, "100", false, 1000),
        AttitudeJudgement::Judged { score: 100, timeout_until: None }
    );
    assert_eq!(
        judge_attitude(true, "50", false, 1000),
        AttitudeJudgement::Judged { score: 50, timeout_until: None }
    );
    assert_eq!(
        judge_attitude(true, "49", false, 1000),
        AttitudeJudgement::Judged { score: 49, timeout_until: Some(1069) }
    );
    assert_eq!(
        judge_attitude(true, "3", true, 1000),
        AttitudeJudgement::Judged { score: 3, timeout_until: None }
    );
}

#[test]
fn vcping_toggles_role() {
    let roles = vec![10, 20, 30];
    assert_eq!(vcping(true, &roles, 20), SubscriptionReply::BridgeHint);
    assert_eq!(vcping(false, &roles, 20), SubscriptionReply::Toggle(RoleChange::Remove));
    assert_eq!(vcping(false, &roles, 99), SubscriptionReply::Toggle(RoleChange::Add));
    assert_eq!(vcping(false, &vec![], 99), SubscriptionReply::Toggle(RoleChange::Add));
}

#[test]
fn role_membership() {
    assert!(holds_role(&vec![1, 2, 3], 3));
    assert!(!holds_role(&vec![1, 2, 3], 4));
    assert!(!holds_role(&vec![], 4));
    assert_eq!(toggle_role(&vec![4], 4), RoleChange::Remove);
    assert_eq!(toggle_role(&vec![5], 4), RoleChange::Add);
}

#[test]
fn highest_role_position() {
    let positions: HashMap<u64, u16> = [(1, 3), (2, 9), (3, 0), (4, 12)].into_iter().collect();
    assert_eq!(highest_role_pos(&vec![1, 2, 3], &positions), 9);
    assert_eq!(highest_role_pos(&vec![3], &positions), 0);
    assert_eq!(highest_role_pos(&vec![4, 1], &positions), 12);
}

#[test]
fn parental_decisions() {
    assert_eq!(parental_decision(5, 5, true, false), ParentalDecision::Denied);
    assert_eq!(parental_decision(4, 5, true, false), ParentalDecision::Denied);
    assert_eq!(parental_decision(6, 5, false, false), ParentalDecision::Denied);
    assert_eq!(parental_decision(6, 5, true, true), ParentalDecision::Apply(RoleChange::Remove));
    assert_eq!(parental_decision(6, 5, true, false), ParentalDecision::Apply(RoleChange::Add));
}

#[test]
fn parental_timeout_ends_at_six() {
    // 2024-01-01T00:00:00Z
    let midnight: i64 = 1_704_067_200;
    assert_eq!(parental_timeout(midnight, 0), midnight + 6 * 3600);
    assert_eq!(parental_timeout(midnight + 6 * 3600, 0), midnight + 6 * 3600);
    assert_eq!(parental_timeout(midnight + 6 * 3600, 1), midnight + 30 * 3600);
    assert_eq!(parental_timeout(midnight + 23 * 3600, 0), midnight + 30 * 3600);
    // 1969-12-31T12:00:00Z
    assert_eq!(parental_timeout(-43_200, 0), 6 * 3600);
}

#[test]
fn purge_counts_the_invoking_message() {
    assert_eq!(purge_fetch_limit(10, true), 10);
    assert_eq!(purge_fetch_limit(10, false), 11);
    assert_eq!(purge_fetch_limit(255, true), 255);
    assert_eq!(purge_fetch_limit(254, false), 255);
}
