//! Handler references: the fixed set of external request handlers the
//! route table can bind. Each variant stands for one external async
//! handler; the gateway never calls one itself, it only routes to them.

use vstd::prelude::*;

verus! {

/// A reference to one external request handler.
#[derive(Clone, Copy, PartialEq, Eq, Structural, Debug)]
pub enum Handler {
    GetSite,
    CreateSite,
    UpdateSite,
    GetModLog,
    Search,
    ResolveObject,
    CreateCommunity,
    GetCommunity,
    UpdateCommunity,
    HideCommunity,
    ListCommunities,
    FollowCommunity,
    BlockCommunity,
    DeleteCommunity,
    RemoveCommunity,
    TransferCommunity,
    BanFromCommunity,
    AddModToCommunity,
    GetFederatedInstances,
    CreatePost,
    GetPost,
    UpdatePost,
    DeletePost,
    RemovePost,
    MarkPostAsRead,
    LockPost,
    FeaturePost,
    ListPosts,
    LikePost,
    SavePost,
    CreatePostReport,
    ResolvePostReport,
    ListPostReports,
    GetLinkMetadata,
    CreateComment,
    GetComment,
    UpdateComment,
    DeleteComment,
    RemoveComment,
    MarkReplyAsRead,
    DistinguishComment,
    LikeComment,
    SaveComment,
    ListComments,
    CreateCommentReport,
    ResolveCommentReport,
    ListCommentReports,
    GetPrivateMessage,
    CreatePrivateMessage,
    UpdatePrivateMessage,
    DeletePrivateMessage,
    MarkPmAsRead,
    CreatePmReport,
    ResolvePmReport,
    ListPmReports,
    Register,
    GetCaptcha,
    ReadPerson,
    ListMentions,
    MarkPersonMentionAsRead,
    ListReplies,
    BanFromSite,
    ListBannedUsers,
    BlockPerson,
    Login,
    DeleteAccount,
    ResetPassword,
    ChangePasswordAfterReset,
    MarkAllNotificationsRead,
    SaveUserSettings,
    ChangePassword,
    ReportCount,
    UnreadCount,
    VerifyEmail,
    LeaveAdmin,
    AddAdmin,
    GetUnreadRegistrationApplicationCount,
    ListRegistrationApplications,
    ApproveRegistrationApplication,
    PurgePerson,
    PurgeCommunity,
    PurgePost,
    PurgeComment,
    CreateCustomEmoji,
    UpdateCustomEmoji,
    DeleteCustomEmoji,
    GetSitemap,
}

} // verus!
