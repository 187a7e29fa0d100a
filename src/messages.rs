use vstd::prelude::*;
use crate::text::{replace_all, replaced};

verus! {

/// Category of a record in the room's event log.
#[derive(Clone, Copy, Debug, PartialEq, Eq, Structural)]
pub enum MsgType {
    Danmu,
    SuperChat,
    Gift,
    GuardBuy,
    UserAction,
}

/// The short tag shown for a category in the mixed feed.
pub open spec fn label_text(t: MsgType) -> Seq<char> {
    match t {
        MsgType::Danmu => "弹幕"@,
        MsgType::SuperChat => " SC "@,
        MsgType::Gift => "礼物"@,
        MsgType::GuardBuy => "上舰"@,
        MsgType::UserAction => "进场"@,
    }
}

/// The line shown in place of a record whose payload does not decode.
pub open spec fn parse_error_text(t: MsgType) -> Seq<char> {
    match t {
        MsgType::Danmu => "解析弹幕消息失败"@,
        MsgType::SuperChat => "解析SC消息失败"@,
        MsgType::Gift => "解析礼物消息失败"@,
        MsgType::GuardBuy => "解析上舰消息失败"@,
        MsgType::UserAction => "解析用户操作消息失败"@,
    }
}

impl MsgType {
    pub fn label(&self) -> (r: String)
        ensures
            r@ == label_text(*self),
    {
        match self {
            MsgType::Danmu => String::from_str("弹幕"),
            MsgType::SuperChat => String::from_str(" SC "),
            MsgType::Gift => String::from_str("礼物"),
            MsgType::GuardBuy => String::from_str("上舰"),
            MsgType::UserAction => String::from_str("进场"),
        }
    }

    pub fn parse_error(&self) -> (r: String)
        ensures
            r@ == parse_error_text(*self),
    {
        match self {
            MsgType::Danmu => String::from_str("解析弹幕消息失败"),
            MsgType::SuperChat => String::from_str("解析SC消息失败"),
            MsgType::Gift => String::from_str("解析礼物消息失败"),
            MsgType::GuardBuy => String::from_str("解析上舰消息失败"),
            MsgType::UserAction => String::from_str("解析用户操作消息失败"),
        }
    }
}

/// The streamer a fan badge belongs to.
#[derive(Clone, Debug)]
pub struct Anchor {
    pub uid: u64,
    pub uname: String,
    pub room_id: u32,
    pub is_same_room: Option<bool>,
}

#[derive(Clone, Debug)]
pub struct Identity {
    pub rank: u8,
    pub guard_level: u8,
    pub room_admin: bool,
}

/// A viewer's fan badge.
#[derive(Clone, Debug)]
pub struct Badge {
    pub name: String,
    pub level: u8,
    pub color: String,
    pub gradient: Option<Vec<String>>,
    pub anchor: Option<Anchor>,
    pub identity: Option<Identity>,
}

impl Badge {
    pub fn new(
        name: String,
        level: u8,
        color: String,
        gradient: Option<Vec<String>>,
        anchor: Option<Anchor>,
        identity: Option<Identity>,
    ) -> (r: Badge)
        ensures
            r.name == name,
            r.level == level,
            r.color == color,
            r.gradient == gradient,
            r.anchor == anchor,
            r.identity == identity,
    {
        Badge { name, level, color, gradient, anchor, identity }
    }
}

/// The sender of a record.
#[derive(Clone, Debug)]
pub struct User {
    pub uid: u64,
    pub uname: String,
    pub face: Option<String>,
    pub badge: Option<Badge>,
    pub identity: Option<Identity>,
}

#[derive(Clone, Debug)]
pub struct Emoticon {
    pub id: String,
    pub height: i32,
    pub width: i32,
    pub url: String,
}

/// A chat message.
#[derive(Clone, Debug)]
pub struct DanmuMsg {
    pub user: User,
    pub content: String,
    pub timestamp: i64,
    pub lottery: bool,
    pub emoticon: Option<Emoticon>,
}

impl DanmuMsg {
    pub fn new(user: User, content: String, timestamp: i64, lottery: bool, emoticon: Option<
        Emoticon,
    >) -> (r: DanmuMsg)
        ensures
            r.user == user,
            r.content == content,
            r.timestamp == timestamp,
            r.lottery == lottery,
            r.emoticon == emoticon,
    {
        DanmuMsg { user, content, timestamp, lottery, emoticon }
    }
}

/// A membership purchase.
#[derive(Clone, Debug)]
pub struct GuardBuyMsg {
    pub timestamp: i64,
    pub user: User,
    pub gift_id: u32,
    pub gift_name: String,
    pub guard_level: u8,
    pub price: u32,
    pub start_time: u32,
    pub end_time: u32,
}

/// A paid chat message.
#[derive(Clone, Debug)]
pub struct SuperChatMsg {
    pub id: u64,
    pub user: User,
    pub content: String,
    pub content_color: String,
    pub price: u32,
    pub time: u32,
    pub timestamp: i64,
}

#[derive(Clone, Debug)]
pub struct Master {
    pub uid: u64,
    pub uname: String,
    pub room_id: u32,
}

#[derive(Clone, Debug)]
pub struct Combo {
    pub batch_id: String,
    pub combo_num: u32,
    pub total_price: u32,
}

/// A gift.
#[derive(Clone, Debug)]
pub struct GiftMsg {
    pub timestamp: i64,
    pub user: User,
    pub gift_id: u32,
    pub gift_name: String,
    pub coin_type: String,
    pub price: u32,
    pub amount: u32,
    pub send_master: Option<Master>,
    pub combo: Option<Combo>,
}

/// A viewer joining, following, sharing or liking.
#[derive(Clone, Debug)]
pub struct UserActionMsg {
    pub user: User,
    pub action: String,
    pub timestamp: i64,
}

/// What a viewer action reads as in the feed; unknown verbs read as nothing.
pub open spec fn action_text(action: Seq<char>) -> Seq<char> {
    if action == "enter"@ {
        "进入你的直播间"@
    } else if action == "follow"@ {
        "关注了你"@
    } else if action == "share"@ {
        "分享了你的直播间"@
    } else if action == "like"@ {
        "为你的直播间点赞"@
    } else {
        Seq::empty()
    }
}

impl UserActionMsg {
    pub fn action_text(&self) -> (r: String)
        ensures
            r@ == action_text(self.action@),
    {
        if self.action == String::from_str("enter") {
            String::from_str("进入你的直播间")
        } else if self.action == String::from_str("follow") {
            String::from_str("关注了你")
        } else if self.action == String::from_str("share") {
            String::from_str("分享了你的直播间")
        } else if self.action == String::from_str("like") {
            String::from_str("为你的直播间点赞")
        } else {
            String::new()
        }
    }
}

/// Chat text with the room's emoticon codes turned into emoji.
pub open spec fn emoji_text(s: Seq<char>) -> Seq<char> {
    let s1 = replaced(s, "[dog]"@, "🐶"@);
    let s2 = replaced(s1, "[手机]"@, "📱"@);
    let s3 = replaced(s2, "[花]"@, "🌹"@);
    let s4 = replaced(s3, "[吃瓜]"@, "🍉"@);
    replaced(s4, "[比心]"@, "❤️"@)
}

/// Turns the emoticon codes in chat text into emoji.
pub fn replace_emoji_to_unicode(emoji_str: &str) -> (r: String)
    ensures
        r@ == emoji_text(emoji_str@),
{
    proof {
        reveal_strlit("[dog]");
        reveal_strlit("[手机]");
        reveal_strlit("[花]");
        reveal_strlit("[吃瓜]");
        reveal_strlit("[比心]");
    }
    let s1 = replace_all(emoji_str, "[dog]", "🐶");
    let s2 = replace_all(s1.as_str(), "[手机]", "📱");
    let s3 = replace_all(s2.as_str(), "[花]", "🌹");
    let s4 = replace_all(s3.as_str(), "[吃瓜]", "🍉");
    replace_all(s4.as_str(), "[比心]", "❤️")
}

/// The position of the last viewer action in `actions` that is a viewer
/// entering the room, if any.
pub fn last_enter(actions: &Vec<UserActionMsg>) -> (r: Option<usize>)
    ensures
        r is None ==> forall|j: int| 0 <= j < actions@.len() ==> actions@[j].action@ != "enter"@,
        r is Some ==> {
            &&& r->Some_0 < actions@.len()
            &&& actions@[r->Some_0 as int].action@ == "enter"@
            &&& forall|j: int|
                r->Some_0 < j < actions@.len() ==> actions@[j].action@ != "enter"@
        },
{
    let enter = String::from_str("enter");
    let mut i: usize = actions.len();
    while i > 0
        invariant
            i <= actions@.len(),
            enter@ == "enter"@,
            forall|j: int| i <= j < actions@.len() ==> actions@[j].action@ != "enter"@,
        decreases i,
    {
        if actions[i - 1].action == enter {
            return Some(i - 1);
        }
        i = i - 1;
    }
    None
}

} // verus!
