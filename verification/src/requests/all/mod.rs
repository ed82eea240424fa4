//! One builder per remote operation.

pub mod answer_inline_query;
pub mod delete_message;
pub mod get_guild_credit;
pub mod get_guild_members_count;
pub mod get_role_members_count;
pub mod get_updates;
pub mod get_user_profile_photos;
pub mod kick_chat_member;
pub mod restrict_chat_member;
pub mod send_animation;
pub mod send_media_group;
pub mod send_message;
pub mod send_task;
pub mod send_video;
pub mod unpin_chat_message;
pub mod upload_sticker_file;

pub use answer_inline_query::AnswerInlineQuery;
pub use delete_message::DeleteMessage;
pub use get_guild_credit::GetGuildCredit;
pub use get_guild_members_count::GetGuildMembersCount;
pub use get_role_members_count::GetRoleMembersCount;
pub use get_updates::GetUpdates;
pub use get_user_profile_photos::GetUserProfilePhotos;
pub use kick_chat_member::KickChatMember;
pub use restrict_chat_member::RestrictChatMember;
pub use send_animation::SendAnimation;
pub use send_media_group::SendMediaGroup;
pub use send_message::SendMessage;
pub use send_task::SendTaskInduction;
pub use send_video::SendVideo;
pub use unpin_chat_message::UnpinChatMessage;
pub use upload_sticker_file::UploadStickerFile;
