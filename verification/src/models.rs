//! Known model-ID constants.
//!
//! These are conveniences for the most common identifiers; the catalog is open
//! and changes over time, so the SDK accepts any model id.
use vstd::prelude::*;

verus! {

/// `gpt-5.5`
pub const GPT_5_5: &'static str = "gpt-5.5";
/// `gpt-5.4`
pub const GPT_5_4: &'static str = "gpt-5.4";
/// `gpt-5.4-mini`
pub const GPT_5_4_MINI: &'static str = "gpt-5.4-mini";
/// `gpt-5.4-nano`
pub const GPT_5_4_NANO: &'static str = "gpt-5.4-nano";
/// `gpt-5.1`
pub const GPT_5_1: &'static str = "gpt-5.1";
/// `gpt-5`
pub const GPT_5: &'static str = "gpt-5";
/// `gpt-5-mini`
pub const GPT_5_MINI: &'static str = "gpt-5-mini";
/// `o3`
pub const O3: &'static str = "o3";
/// `o4-mini`
pub const O4_MINI: &'static str = "o4-mini";
/// `gemini-3.5-flash`
pub const GEMINI_3_5_FLASH: &'static str = "gemini-3.5-flash";
/// `gemini-3.1-pro-preview`
pub const GEMINI_3_1_PRO_PREVIEW: &'static str = "gemini-3.1-pro-preview";
/// `gemini-3-flash-preview`
pub const GEMINI_3_FLASH_PREVIEW: &'static str = "gemini-3-flash-preview";
/// `gemini-2.5-pro`
pub const GEMINI_2_5_PRO: &'static str = "gemini-2.5-pro";
/// `gemini-2.5-flash`
pub const GEMINI_2_5_FLASH: &'static str = "gemini-2.5-flash";
/// `gemini-2.5-flash-lite`
pub const GEMINI_2_5_FLASH_LITE: &'static str = "gemini-2.5-flash-lite";
/// `deepseek-v4-pro`
pub const DEEPSEEK_V4_PRO: &'static str = "deepseek-v4-pro";
/// `deepseek-v4-flash`
pub const DEEPSEEK_V4_FLASH: &'static str = "deepseek-v4-flash";
/// `grok-4.3`
pub const GROK_4_3: &'static str = "grok-4.3";
/// `grok-4.20-reasoning`
pub const GROK_4_20_REASONING: &'static str = "grok-4.20-reasoning";
/// `grok-4.20-non-reasoning`
pub const GROK_4_20_NON_REASONING: &'static str = "grok-4.20-non-reasoning";
/// `grok-build-0.1`
pub const GROK_BUILD_0_1: &'static str = "grok-build-0.1";
/// `gpt-image-1`
pub const GPT_IMAGE_1: &'static str = "gpt-image-1";

} // verus!
