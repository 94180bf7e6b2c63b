//! The error type shared by every fallible operation of the library.

use vstd::prelude::*;

verus! {

/// Everything that can go wrong in the library. Variants that carry a
/// `String` hold a message for people; code decides on the variant alone.
#[derive(Debug, Clone, PartialEq, Eq)]
pub enum MajiangError {
    /// The wall has no more tiles to hand out.
    NotEnoughTiles,
    /// The operation is not allowed in the current state.
    InvalidOperation(String),
    /// A tile or tile number that does not exist.
    InvalidTile(String),
    /// The operation breaks a rule of the variant in force.
    RuleViolation(String),
    /// The game state is inconsistent.
    InvalidState(String),
    /// A player action that is not legal now.
    InvalidAction(String),
    /// The tile is not among the concealed tiles.
    TileNotFound,
    /// A group of tiles that is no legal meld.
    InvalidMeld(String),
    /// The tiles do not form a winning hand.
    InvalidWinningHand(String),
    /// A state that should be unreachable.
    InternalError(String),
    /// A configuration value out of range.
    ConfigurationError(String),
    /// Data could not be converted.
    SerializationError(String),
    /// Not enough points or other resources.
    InsufficientResources(String),
}

/// The result type of fallible operations.
pub type MajiangResult<T> = Result<T, MajiangError>;

impl MajiangError {
    /// The fixed heading under which a variant is reported.
    pub open spec fn heading(self) -> Seq<char> {
        match self {
            MajiangError::NotEnoughTiles => "牌墙中没有足够的牌"@,
            MajiangError::InvalidOperation(_) => "无效的操作: "@,
            MajiangError::InvalidTile(_) => "无效的牌: "@,
            MajiangError::RuleViolation(_) => "规则冲突: "@,
            MajiangError::InvalidState(_) => "无效的游戏状态: "@,
            MajiangError::InvalidAction(_) => "无效的玩家操作: "@,
            MajiangError::TileNotFound => "牌不在手牌中"@,
            MajiangError::InvalidMeld(_) => "无效的副露操作: "@,
            MajiangError::InvalidWinningHand(_) => "无效的和牌组合: "@,
            MajiangError::InternalError(_) => "内部逻辑错误: "@,
            MajiangError::ConfigurationError(_) => "配置错误: "@,
            MajiangError::SerializationError(_) => "序列化/反序列化错误: "@,
            MajiangError::InsufficientResources(_) => "资源不足: "@,
        }
    }

    /// The message a variant carries; empty for the two that carry none.
    pub open spec fn detail(self) -> Seq<char> {
        match self {
            MajiangError::NotEnoughTiles => Seq::empty(),
            MajiangError::TileNotFound => Seq::empty(),
            MajiangError::InvalidOperation(m) => m@,
            MajiangError::InvalidTile(m) => m@,
            MajiangError::RuleViolation(m) => m@,
            MajiangError::InvalidState(m) => m@,
            MajiangError::InvalidAction(m) => m@,
            MajiangError::InvalidMeld(m) => m@,
            MajiangError::InvalidWinningHand(m) => m@,
            MajiangError::InternalError(m) => m@,
            MajiangError::ConfigurationError(m) => m@,
            MajiangError::SerializationError(m) => m@,
            MajiangError::InsufficientResources(m) => m@,
        }
    }

    /// The text shown for an error: its heading followed by its message.
    pub fn to_string(&self) -> (text: String)
        ensures
            text@ == self.heading() + self.detail(),
    {
        match self {
            MajiangError::NotEnoughTiles => String::from_str("牌墙中没有足够的牌"),
            MajiangError::InvalidOperation(m) => String::from_str("无效的操作: ").concat(m.as_str()),
            MajiangError::InvalidTile(m) => String::from_str("无效的牌: ").concat(m.as_str()),
            MajiangError::RuleViolation(m) => String::from_str("规则冲突: ").concat(m.as_str()),
            MajiangError::InvalidState(m) => String::from_str("无效的游戏状态: ").concat(m.as_str()),
            MajiangError::InvalidAction(m) => String::from_str("无效的玩家操作: ").concat(m.as_str()),
            MajiangError::TileNotFound => String::from_str("牌不在手牌中"),
            MajiangError::InvalidMeld(m) => String::from_str("无效的副露操作: ").concat(m.as_str()),
            MajiangError::InvalidWinningHand(m) => String::from_str("无效的和牌组合: ").concat(
                m.as_str(),
            ),
            MajiangError::InternalError(m) => String::from_str("内部逻辑错误: ").concat(m.as_str()),
            MajiangError::ConfigurationError(m) => String::from_str("配置错误: ").concat(m.as_str()),
            MajiangError::SerializationError(m) => String::from_str("序列化/反序列化错误: ").concat(
                m.as_str(),
            ),
            MajiangError::InsufficientResources(m) => String::from_str("资源不足: ").concat(
                m.as_str(),
            ),
        }
    }
}

} // verus!
