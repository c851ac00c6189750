//! Execution core for chains of sandboxed ECMAScript transform plugins:
//! plugin module caching, comment bridging, per-chain metadata, the chain
//! executor's decisions, and the fallback used where no sandbox runtime exists.

pub mod chain;
pub mod comments;
pub mod issue;
pub mod metadata;
pub mod plugin_module;
pub mod transformer;

pub use chain::{
    deserialization_outcome, serialization_outcome, ChainAction, PluginChainRun, TransformError,
};
pub use comments::{
    bridge_comments, copy_comment, should_enable_comments_proxy, Comment, CommentKind, CommentsMap,
    SingleThreadedComments,
};
pub use issue::{IssueSeverity, UnsupportedSwcEcmaTransformPluginsIssue};
pub use metadata::TransformPluginMetadataContext;
pub use plugin_module::{PluginModuleCache, SwcPluginModule};
pub use transformer::{SwcEcmaTransformPluginsTransformer, TransformPlan};
