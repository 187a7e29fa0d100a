use bilicli::text::replace_all;
use bilicli::{last_enter, replace_emoji_to_unicode, Badge, DanmuMsg, MsgType, User, UserActionMsg};

fn viewer(name: &str) -> User {
    User { uid: 3, uname: name.to_string(), face: None, badge: None, identity: None }
}

#[test]
fn labels_and_parse_errors_name_the_category() {
    assert_eq!(MsgType::Danmu.label(), "弹幕");
    assert_eq!(MsgType::SuperChat.label(), " SC ");
    assert_eq!(MsgType::UserAction.label(), "进场");
    assert_eq!(MsgType::Gift.parse_error(), "解析礼物消息失败");
    assert_eq!(MsgType::GuardBuy.parse_error(), "解析上舰消息失败");
    assert_eq!(MsgType::UserAction.parse_error(), "解析用户操作消息失败");
}

#[test]
fn action_verbs_read_as_text() {
    let mut msg = UserActionMsg { user: viewer("v"), action: "enter".to_string(), timestamp: 0 };
    assert_eq!(msg.action_text(), "进入你的直播间");
    msg.action = "like".to_string();
    assert_eq!(msg.action_text(), "为你的直播间点赞");
    msg.action = "wave".to_string();
    assert_eq!(msg.action_text(), "");
}

#[test]
fn constructors_keep_fields() {
    let badge = Badge::new("粉丝".to_string(), 12, "#ff0000".to_string(), None, None, None);
    assert_eq!(badge.level, 12);
    assert_eq!(badge.name, "粉丝");
    let mut user = viewer("bob");
    user.badge = Some(badge);
    let msg = DanmuMsg::new(user, "hi".to_string(), 1_700_000_000_000, false, None);
    assert_eq!(msg.content, "hi");
    assert_eq!(msg.timestamp, 1_700_000_000_000);
    assert_eq!(msg.user.badge.unwrap().color, "#ff0000");
}

#[test]
fn emoticon_codes_become_emoji() {
    assert_eq!(replace_emoji_to_unicode("hi [dog][dog]!"), "hi 🐶🐶!");
    assert_eq!(replace_emoji_to_unicode("[手机][花][吃瓜][比心]"), "📱🌹🍉❤️");
    assert_eq!(replace_emoji_to_unicode("[dog"), "[dog");
    assert_eq!(replace_emoji_to_unicode(""), "");
}

#[test]
fn replace_all_matches_left_to_right() {
    assert_eq!(replace_all("aaa", "aa", "b"), "ba");
    assert_eq!(replace_all("abcabc", "bc", ""), "aa");
    assert_eq!(replace_all("xyz", "q", "r"), "xyz");
}

#[test]
fn last_enter_finds_the_latest_entry() {
    let action = |verb: &str| UserActionMsg { user: viewer("v"), action: verb.to_string(), timestamp: 0 };
    assert_eq!(last_enter(&vec![]), None);
    assert_eq!(last_enter(&vec![action("like"), action("follow")]), None);
    assert_eq!(last_enter(&vec![action("enter"), action("like"), action("enter"), action("share")]), Some(2));
}
