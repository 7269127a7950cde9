//! The structs and enums that Neovim's API functions take and return.

pub mod autocmd_callback_args;
pub mod command_addr;
pub mod command_args;
pub mod command_complete;
pub mod command_infos;
pub mod command_modifiers;
pub mod command_nargs;
pub mod command_range;
pub mod extmark_hl_mode;
pub mod extmark_infos;
pub mod extmark_position;
pub mod extmark_virt_text_position;
pub mod got_mode;
pub mod highlight_infos;
pub mod mode;
pub mod proc_infos;
pub mod split_modifier;
pub mod statusline_highlight_infos;
pub mod statusline_infos;

pub use autocmd_callback_args::AutocmdCallbackArgs;
pub use command_addr::CommandAddr;
pub use command_args::CommandArgs;
pub use command_complete::CommandComplete;
pub use command_infos::CommandInfos;
pub use command_modifiers::CommandModifiers;
pub use command_nargs::CommandNArgs;
pub use command_range::CommandRange;
pub use extmark_hl_mode::ExtmarkHlMode;
pub use extmark_infos::ExtmarkInfos;
pub use extmark_position::ExtmarkPosition;
pub use extmark_virt_text_position::ExtmarkVirtTextPosition;
pub use got_mode::GotMode;
pub use highlight_infos::HighlightInfos;
pub use mode::Mode;
pub use proc_infos::ProcInfos;
pub use split_modifier::SplitModifier;
pub use statusline_highlight_infos::StatuslineHighlightInfos;
pub use statusline_infos::StatuslineInfos;
