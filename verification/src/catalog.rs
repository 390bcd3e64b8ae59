use vstd::prelude::*;

use crate::guid::Guid;

verus! {

/// The closed catalog of known-folder concepts. Each variant selects one
/// platform-defined folder identifier; see `folder_guid`.
#[derive(Clone, Copy, PartialEq, Eq, Structural, Debug)]
pub enum FolderId {
    NetworkFolder,
    ComputerFolder,
    InternetFolder,
    ControlPanelFolder,
    PrintersFolder,
    SyncManagerFolder,
    SyncSetupFolder,
    ConflictFolder,
    SyncResultsFolder,
    RecycleBinFolder,
    ConnectionsFolder,
    Fonts,
    Desktop,
    Startup,
    Programs,
    StartMenu,
    Recent,
    SendTo,
    Documents,
    Favorites,
    NetHood,
    PrintHood,
    Templates,
    CommonStartup,
    CommonPrograms,
    CommonStartMenu,
    PublicDesktop,
    ProgramData,
    CommonTemplates,
    PublicDocuments,
    RoamingAppData,
    LocalAppData,
    LocalAppDataLow,
    InternetCache,
    Cookies,
    History,
    System,
    SystemX86,
    Windows,
    Profile,
    Pictures,
    ProgramFilesX86,
    ProgramFilesCommonX86,
    ProgramFilesX64,
    ProgramFilesCommonX64,
    ProgramFiles,
    ProgramFilesCommon,
    UserProgramFiles,
    UserProgramFilesCommon,
    AdminTools,
    CommonAdminTools,
    Music,
    Videos,
    Ringtones,
    PublicPictures,
    PublicMusic,
    PublicVideos,
    PublicRingtones,
    ResourceDir,
    LocalizedResourcesDir,
    CommonOEMLinks,
    CDBurning,
    UserProfiles,
    Playlists,
    SamplePlaylists,
    SampleMusic,
    SamplePictures,
    SampleVideos,
    PhotoAlbums,
    Public,
    ChangeRemovePrograms,
    AppUpdates,
    AddNewPrograms,
    Downloads,
    PublicDownloads,
    SavedSearches,
    QuickLaunch,
    Contacts,
    SidebarParts,
    SidebarDefaultParts,
    PublicGameTasks,
    GameTasks,
    SavedGames,
    Games,
    SearchMapi,
    SearchCsc,
    Links,
    UsersFiles,
    UsersLibraries,
    SearchHome,
    OriginalImages,
    DocumentsLibrary,
    MusicLibrary,
    PicturesLibrary,
    VideosLibrary,
    RecordedTVLibrary,
    HomeGroup,
    HomeGroupCurrentUser,
    DeviceMetadataStore,
    Libraries,
    PublicLibraries,
    UserPinned,
    ImplicitAppShortcuts,
    AccountPictures,
    PublicUserTiles,
    AppsFolder,
    StartMenuAllPrograms,
    CommonStartMenuPlaces,
    ApplicationShortcuts,
    RoamingTiles,
    RoamedTileImages,
    Screenshots,
    CameraRoll,
    SkyDrive,
    OneDrive,
    SkyDriveDocuments,
    SkyDrivePictures,
    SkyDriveMusic,
    SkyDriveCameraRoll,
    SearchHistory,
    SearchTemplates,
    CameraRollLibrary,
    SavedPictures,
    SavedPicturesLibrary,
    RetailDemo,
    Device,
    DevelopmentFiles,
    Objects3D,
    AppCaptures,
    LocalDocuments,
    LocalPictures,
    LocalVideos,
    LocalMusic,
    LocalDownloads,
    RecordedCalls,
    AllAppMods,
    CurrentAppMods,
    AppDataDesktop,
    AppDataDocuments,
    AppDataFavorites,
    AppDataProgramData,
}

/// How many known-folder concepts the catalog holds.
pub const FOLDER_COUNT: usize = 141;

/// The platform identifier that belongs to each catalog entry.
pub open spec fn folder_guid(id: FolderId) -> Guid {
    match id {
        FolderId::NetworkFolder => (Guid { data1: 0xd20beec4, data2: 0x5ca8, data3: 0x4905, data4: [0xae, 0x3b, 0xbf, 0x25, 0x1e, 0xa0, 0x9b, 0x53] }),
        FolderId::ComputerFolder => (Guid { data1: 0x0ac0837c, data2: 0xbbf8, data3: 0x452a, data4: [0x85, 0x0d, 0x79, 0xd0, 0x8e, 0x66, 0x7c, 0xa7] }),
        FolderId::InternetFolder => (Guid { data1: 0x4d9f7874, data2: 0x4e0c, data3: 0x4904, data4: [0x96, 0x7b, 0x40, 0xb0, 0xd2, 0x0c, 0x3e, 0x4b] }),
        FolderId::ControlPanelFolder => (Guid { data1: 0x82a74aeb, data2: 0xaeb4, data3: 0x465c, data4: [0xa0, 0x14, 0xd0, 0x97, 0xee, 0x34, 0x6d, 0x63] }),
        FolderId::PrintersFolder => (Guid { data1: 0x76fc4e2d, data2: 0xd6ad, data3: 0x4519, data4: [0xa6, 0x63, 0x37, 0xbd, 0x56, 0x06, 0x81, 0x85] }),
        FolderId::SyncManagerFolder => (Guid { data1: 0x43668bf8, data2: 0xc14e, data3: 0x49b2, data4: [0x97, 0xc9, 0x74, 0x77, 0x84, 0xd7, 0x84, 0xb7] }),
        FolderId::SyncSetupFolder => (Guid { data1: 0x0f214138, data2: 0xb1d3, data3: 0x4a90, data4: [0xbb, 0xa9, 0x27, 0xcb, 0xc0, 0xc5, 0x38, 0x9a] }),
        FolderId::ConflictFolder => (Guid { data1: 0x4bfefb45, data2: 0x347d, data3: 0x4006, data4: [0xa5, 0xbe, 0xac, 0x0c, 0xb0, 0x56, 0x71, 0x92] }),
        FolderId::SyncResultsFolder => (Guid { data1: 0x289a9a43, data2: 0xbe44, data3: 0x4057, data4: [0xa4, 0x1b, 0x58, 0x7a, 0x76, 0xd7, 0xe7, 0xf9] }),
        FolderId::RecycleBinFolder => (Guid { data1: 0xb7534046, data2: 0x3ecb, data3: 0x4c18, data4: [0xbe, 0x4e, 0x64, 0xcd, 0x4c, 0xb7, 0xd6, 0xac] }),
        FolderId::ConnectionsFolder => (Guid { data1: 0x6f0cd92b, data2: 0x2e97, data3: 0x45d1, data4: [0x88, 0xff, 0xb0, 0xd1, 0x86, 0xb8, 0xde, 0xdd] }),
        FolderId::Fonts => (Guid { data1: 0xfd228cb7, data2: 0xae11, data3: 0x4ae3, data4: [0x86, 0x4c, 0x16, 0xf3, 0x91, 0x0a, 0xb8, 0xfe] }),
        FolderId::Desktop => (Guid { data1: 0xb4bfcc3a, data2: 0xdb2c, data3: 0x424c, data4: [0xb0, 0x29, 0x7f, 0xe9, 0x9a, 0x87, 0xc6, 0x41] }),
        FolderId::Startup => (Guid { data1: 0xb97d20bb, data2: 0xf46a, data3: 0x4c97, data4: [0xba, 0x10, 0x5e, 0x36, 0x08, 0x43, 0x08, 0x54] }),
        FolderId::Programs => (Guid { data1: 0xa77f5d77, data2: 0x2e2b, data3: 0x44c3, data4: [0xa6, 0xa2, 0xab, 0xa6, 0x01, 0x05, 0x4a, 0x51] }),
        FolderId::StartMenu => (Guid { data1: 0x625b53c3, data2: 0xab48, data3: 0x4ec1, data4: [0xba, 0x1f, 0xa1, 0xef, 0x41, 0x46, 0xfc, 0x19] }),
        FolderId::Recent => (Guid { data1: 0xae50c081, data2: 0xebd2, data3: 0x438a, data4: [0x86, 0x55, 0x8a, 0x09, 0x2e, 0x34, 0x98, 0x7a] }),
        FolderId::SendTo => (Guid { data1: 0x8983036c, data2: 0x27c0, data3: 0x404b, data4: [0x8f, 0x08, 0x10, 0x2d, 0x10, 0xdc, 0xfd, 0x74] }),
        FolderId::Documents => (Guid { data1: 0xfdd39ad0, data2: 0x238f, data3: 0x46af, data4: [0xad, 0xb4, 0x6c, 0x85, 0x48, 0x03, 0x69, 0xc7] }),
        FolderId::Favorites => (Guid { data1: 0x1777f761, data2: 0x68ad, data3: 0x4d8a, data4: [0x87, 0xbd, 0x30, 0xb7, 0x59, 0xfa, 0x33, 0xdd] }),
        FolderId::NetHood => (Guid { data1: 0xc5abbf53, data2: 0xe17f, data3: 0x4121, data4: [0x89, 0x00, 0x86, 0x62, 0x6f, 0xc2, 0xc9, 0x73] }),
        FolderId::PrintHood => (Guid { data1: 0x9274bd8d, data2: 0xcfd1, data3: 0x41c3, data4: [0xb3, 0x5e, 0xb1, 0x3f, 0x55, 0xa7, 0x58, 0xf4] }),
        FolderId::Templates => (Guid { data1: 0xa63293e8, data2: 0x664e, data3: 0x48db, data4: [0xa0, 0x79, 0xdf, 0x75, 0x9e, 0x05, 0x09, 0xf7] }),
        FolderId::CommonStartup => (Guid { data1: 0x82a5ea35, data2: 0xd9cd, data3: 0x47c5, data4: [0x96, 0x29, 0xe1, 0x5d, 0x2f, 0x71, 0x4e, 0x6e] }),
        FolderId::CommonPrograms => (Guid { data1: 0x0139d44e, data2: 0x6afe, data3: 0x49f2, data4: [0x86, 0x90, 0x3d, 0xaf, 0xca, 0xe6, 0xff, 0xb8] }),
        FolderId::CommonStartMenu => (Guid { data1: 0xa4115719, data2: 0xd62e, data3: 0x491d, data4: [0xaa, 0x7c, 0xe7, 0x4b, 0x8b, 0xe3, 0xb0, 0x67] }),
        FolderId::PublicDesktop => (Guid { data1: 0xc4aa340d, data2: 0xf20f, data3: 0x4863, data4: [0xaf, 0xef, 0xf8, 0x7e, 0xf2, 0xe6, 0xba, 0x25] }),
        FolderId::ProgramData => (Guid { data1: 0x62ab5d82, data2: 0xfdc1, data3: 0x4dc3, data4: [0xa9, 0xdd, 0x07, 0x0d, 0x1d, 0x49, 0x5d, 0x97] }),
        FolderId::CommonTemplates => (Guid { data1: 0xb94237e7, data2: 0x57ac, data3: 0x4347, data4: [0x91, 0x51, 0xb0, 0x8c, 0x6c, 0x32, 0xd1, 0xf7] }),
        FolderId::PublicDocuments => (Guid { data1: 0xed4824af, data2: 0xdce4, data3: 0x45a8, data4: [0x81, 0xe2, 0xfc, 0x79, 0x65, 0x08, 0x36, 0x34] }),
        FolderId::RoamingAppData => (Guid { data1: 0x3eb685db, data2: 0x65f9, data3: 0x4cf6, data4: [0xa0, 0x3a, 0xe3, 0xef, 0x65, 0x72, 0x9f, 0x3d] }),
        FolderId::LocalAppData => (Guid { data1: 0xf1b32785, data2: 0x6fba, data3: 0x4fcf, data4: [0x9d, 0x55, 0x7b, 0x8e, 0x7f, 0x15, 0x70, 0x91] }),
        FolderId::LocalAppDataLow => (Guid { data1: 0xa520a1a4, data2: 0x1780, data3: 0x4ff6, data4: [0xbd, 0x18, 0x16, 0x73, 0x43, 0xc5, 0xaf, 0x16] }),
        FolderId::InternetCache => (Guid { data1: 0x352481e8, data2: 0x33be, data3: 0x4251, data4: [0xba, 0x85, 0x60, 0x07, 0xca, 0xed, 0xcf, 0x9d] }),
        FolderId::Cookies => (Guid { data1: 0x2b0f765d, data2: 0xc0e9, data3: 0x4171, data4: [0x90, 0x8e, 0x08, 0xa6, 0x11, 0xb8, 0x4f, 0xf6] }),
        FolderId::History => (Guid { data1: 0xd9dc8a3b, data2: 0xb784, data3: 0x432e, data4: [0xa7, 0x81, 0x5a, 0x11, 0x30, 0xa7, 0x59, 0x63] }),
        FolderId::System => (Guid { data1: 0x1ac14e77, data2: 0x02e7, data3: 0x4e5d, data4: [0xb7, 0x44, 0x2e, 0xb1, 0xae, 0x51, 0x98, 0xb7] }),
        FolderId::SystemX86 => (Guid { data1: 0xd65231b0, data2: 0xb2f1, data3: 0x4857, data4: [0xa4, 0xce, 0xa8, 0xe7, 0xc6, 0xea, 0x7d, 0x27] }),
        FolderId::Windows => (Guid { data1: 0xf38bf404, data2: 0x1d43, data3: 0x42f2, data4: [0x93, 0x05, 0x67, 0xde, 0x0b, 0x28, 0xfc, 0x23] }),
        FolderId::Profile => (Guid { data1: 0x5e6c858f, data2: 0x0e22, data3: 0x4760, data4: [0x9a, 0xfe, 0xea, 0x33, 0x17, 0xb6, 0x71, 0x73] }),
        FolderId::Pictures => (Guid { data1: 0x33e28130, data2: 0x4e1e, data3: 0x4676, data4: [0x83, 0x5a, 0x98, 0x39, 0x5c, 0x3b, 0xc3, 0xbb] }),
        FolderId::ProgramFilesX86 => (Guid { data1: 0x7c5a40ef, data2: 0xa0fb, data3: 0x4bfc, data4: [0x87, 0x4a, 0xc0, 0xf2, 0xe0, 0xb9, 0xfa, 0x8e] }),
        FolderId::ProgramFilesCommonX86 => (Guid { data1: 0xde974d24, data2: 0xd9c6, data3: 0x4d3e, data4: [0xbf, 0x91, 0xf4, 0x45, 0x51, 0x20, 0xb9, 0x17] }),
        FolderId::ProgramFilesX64 => (Guid { data1: 0x6d809377, data2: 0x6af0, data3: 0x444b, data4: [0x89, 0x57, 0xa3, 0x77, 0x3f, 0x02, 0x20, 0x0e] }),
        FolderId::ProgramFilesCommonX64 => (Guid { data1: 0x6365d5a7, data2: 0x0f0d, data3: 0x45e5, data4: [0x87, 0xf6, 0x0d, 0xa5, 0x6b, 0x6a, 0x4f, 0x7d] }),
        FolderId::ProgramFiles => (Guid { data1: 0x905e63b6, data2: 0xc1bf, data3: 0x494e, data4: [0xb2, 0x9c, 0x65, 0xb7, 0x32, 0xd3, 0xd2, 0x1a] }),
        FolderId::ProgramFilesCommon => (Guid { data1: 0xf7f1ed05, data2: 0x9f6d, data3: 0x47a2, data4: [0xaa, 0xae, 0x29, 0xd3, 0x17, 0xc6, 0xf0, 0x66] }),
        FolderId::UserProgramFiles => (Guid { data1: 0x5cd7aee2, data2: 0x2219, data3: 0x4a67, data4: [0xb8, 0x5d, 0x6c, 0x9c, 0xe1, 0x56, 0x60, 0xcb] }),
        FolderId::UserProgramFilesCommon => (Guid { data1: 0xbcbd3057, data2: 0xca5c, data3: 0x4622, data4: [0xb4, 0x2d, 0xbc, 0x56, 0xdb, 0x0a, 0xe5, 0x16] }),
        FolderId::AdminTools => (Guid { data1: 0x724ef170, data2: 0xa42d, data3: 0x4fef, data4: [0x9f, 0x26, 0xb6, 0x0e, 0x84, 0x6f, 0xba, 0x4f] }),
        FolderId::CommonAdminTools => (Guid { data1: 0xd0384e7d, data2: 0xbac3, data3: 0x4797, data4: [0x8f, 0x14, 0xcb, 0xa2, 0x29, 0xb3, 0x92, 0xb5] }),
        FolderId::Music => (Guid { data1: 0x4bd8d571, data2: 0x6d19, data3: 0x48d3, data4: [0xbe, 0x97, 0x42, 0x22, 0x20, 0x08, 0x0e, 0x43] }),
        FolderId::Videos => (Guid { data1: 0x18989b1d, data2: 0x99b5, data3: 0x455b, data4: [0x84, 0x1c, 0xab, 0x7c, 0x74, 0xe4, 0xdd, 0xfc] }),
        FolderId::Ringtones => (Guid { data1: 0xc870044b, data2: 0xf49e, data3: 0x4126, data4: [0xa9, 0xc3, 0xb5, 0x2a, 0x1f, 0xf4, 0x11, 0xe8] }),
        FolderId::PublicPictures => (Guid { data1: 0xb6ebfb86, data2: 0x6907, data3: 0x413c, data4: [0x9a, 0xf7, 0x4f, 0xc2, 0xab, 0xf0, 0x7c, 0xc5] }),
        FolderId::PublicMusic => (Guid { data1: 0x3214fab5, data2: 0x9757, data3: 0x4298, data4: [0xbb, 0x61, 0x92, 0xa9, 0xde, 0xaa, 0x44, 0xff] }),
        FolderId::PublicVideos => (Guid { data1: 0x2400183a, data2: 0x6185, data3: 0x49fb, data4: [0xa2, 0xd8, 0x4a, 0x39, 0x2a, 0x60, 0x2b, 0xa3] }),
        FolderId::PublicRingtones => (Guid { data1: 0xe555ab60, data2: 0x153b, data3: 0x4d17, data4: [0x9f, 0x04, 0xa5, 0xfe, 0x99, 0xfc, 0x15, 0xec] }),
        FolderId::ResourceDir => (Guid { data1: 0x8ad10c31, data2: 0x2adb, data3: 0x4296, data4: [0xa8, 0xf7, 0xe4, 0x70, 0x12, 0x32, 0xc9, 0x72] }),
        FolderId::LocalizedResourcesDir => (Guid { data1: 0x2a00375e, data2: 0x224c, data3: 0x49de, data4: [0xb8, 0xd1, 0x44, 0x0d, 0xf7, 0xef, 0x3d, 0xdc] }),
        FolderId::CommonOEMLinks => (Guid { data1: 0xc1bae2d0, data2: 0x10df, data3: 0x4334, data4: [0xbe, 0xdd, 0x7a, 0xa2, 0x0b, 0x22, 0x7a, 0x9d] }),
        FolderId::CDBurning => (Guid { data1: 0x9e52ab10, data2: 0xf80d, data3: 0x49df, data4: [0xac, 0xb8, 0x43, 0x30, 0xf5, 0x68, 0x78, 0x55] }),
        FolderId::UserProfiles => (Guid { data1: 0x0762d272, data2: 0xc50a, data3: 0x4bb0, data4: [0xa3, 0x82, 0x69, 0x7d, 0xcd, 0x72, 0x9b, 0x80] }),
        FolderId::Playlists => (Guid { data1: 0xde92c1c7, data2: 0x837f, data3: 0x4f69, data4: [0xa3, 0xbb, 0x86, 0xe6, 0x31, 0x20, 0x4a, 0x23] }),
        FolderId::SamplePlaylists => (Guid { data1: 0x15ca69b3, data2: 0x30ee, data3: 0x49c1, data4: [0xac, 0xe1, 0x6b, 0x5e, 0xc3, 0x72, 0xaf, 0xb5] }),
        FolderId::SampleMusic => (Guid { data1: 0xb250c668, data2: 0xf57d, data3: 0x4ee1, data4: [0xa6, 0x3c, 0x29, 0x0e, 0xe7, 0xd1, 0xaa, 0x1f] }),
        FolderId::SamplePictures => (Guid { data1: 0xc4900540, data2: 0x2379, data3: 0x4c75, data4: [0x84, 0x4b, 0x64, 0xe6, 0xfa, 0xf8, 0x71, 0x6b] }),
        FolderId::SampleVideos => (Guid { data1: 0x859ead94, data2: 0x2e85, data3: 0x48ad, data4: [0xa7, 0x1a, 0x09, 0x69, 0xcb, 0x56, 0xa6, 0xcd] }),
        FolderId::PhotoAlbums => (Guid { data1: 0x69d2cf90, data2: 0xfc33, data3: 0x4fb7, data4: [0x9a, 0x0c, 0xeb, 0xb0, 0xf0, 0xfc, 0xb4, 0x3c] }),
        FolderId::Public => (Guid { data1: 0xdfdf76a2, data2: 0xc82a, data3: 0x4d63, data4: [0x90, 0x6a, 0x56, 0x44, 0xac, 0x45, 0x73, 0x85] }),
        FolderId::ChangeRemovePrograms => (Guid { data1: 0xdf7266ac, data2: 0x9274, data3: 0x4867, data4: [0x8d, 0x55, 0x3b, 0xd6, 0x61, 0xde, 0x87, 0x2d] }),
        FolderId::AppUpdates => (Guid { data1: 0xa305ce99, data2: 0xf527, data3: 0x492b, data4: [0x8b, 0x1a, 0x7e, 0x76, 0xfa, 0x98, 0xd6, 0xe4] }),
        FolderId::AddNewPrograms => (Guid { data1: 0xde61d971, data2: 0x5ebc, data3: 0x4f02, data4: [0xa3, 0xa9, 0x6c, 0x82, 0x89, 0x5e, 0x5c, 0x04] }),
        FolderId::Downloads => (Guid { data1: 0x374de290, data2: 0x123f, data3: 0x4565, data4: [0x91, 0x64, 0x39, 0xc4, 0x92, 0x5e, 0x46, 0x7b] }),
        FolderId::PublicDownloads => (Guid { data1: 0x3d644c9b, data2: 0x1fb8, data3: 0x4f30, data4: [0x9b, 0x45, 0xf6, 0x70, 0x23, 0x5f, 0x79, 0xc0] }),
        FolderId::SavedSearches => (Guid { data1: 0x7d1d3a04, data2: 0xdebb, data3: 0x4115, data4: [0x95, 0xcf, 0x2f, 0x29, 0xda, 0x29, 0x20, 0xda] }),
        FolderId::QuickLaunch => (Guid { data1: 0x52a4f021, data2: 0x7b75, data3: 0x48a9, data4: [0x9f, 0x6b, 0x4b, 0x87, 0xa2, 0x10, 0xbc, 0x8f] }),
        FolderId::Contacts => (Guid { data1: 0x56784854, data2: 0xc6cb, data3: 0x462b, data4: [0x81, 0x69, 0x88, 0xe3, 0x50, 0xac, 0xb8, 0x82] }),
        FolderId::SidebarParts => (Guid { data1: 0xa75d362e, data2: 0x50fc, data3: 0x4fb7, data4: [0xac, 0x2c, 0xa8, 0xbe, 0xaa, 0x31, 0x44, 0x93] }),
        FolderId::SidebarDefaultParts => (Guid { data1: 0x7b396e54, data2: 0x9ec5, data3: 0x4300, data4: [0xbe, 0x0a, 0x24, 0x82, 0xeb, 0xae, 0x1a, 0x26] }),
        FolderId::PublicGameTasks => (Guid { data1: 0xdebf2536, data2: 0xe1a8, data3: 0x4c59, data4: [0xb6, 0xa2, 0x41, 0x45, 0x86, 0x47, 0x6a, 0xea] }),
        FolderId::GameTasks => (Guid { data1: 0x054fae61, data2: 0x4dd8, data3: 0x4787, data4: [0x80, 0xb6, 0x09, 0x02, 0x20, 0xc4, 0xb7, 0x0] }),
        FolderId::SavedGames => (Guid { data1: 0x4c5c32ff, data2: 0xbb9d, data3: 0x43b0, data4: [0xb5, 0xb4, 0x2d, 0x72, 0xe5, 0x4e, 0xaa, 0xa4] }),
        FolderId::Games => (Guid { data1: 0xcac52c1a, data2: 0xb53d, data3: 0x4edc, data4: [0x92, 0xd7, 0x6b, 0x2e, 0x8a, 0xc1, 0x94, 0x34] }),
        FolderId::SearchMapi => (Guid { data1: 0x98ec0e18, data2: 0x2098, data3: 0x4d44, data4: [0x86, 0x44, 0x66, 0x97, 0x93, 0x15, 0xa2, 0x81] }),
        FolderId::SearchCsc => (Guid { data1: 0xee32e446, data2: 0x31ca, data3: 0x4aba, data4: [0x81, 0x4f, 0xa5, 0xeb, 0xd2, 0xfd, 0x6d, 0x5e] }),
        FolderId::Links => (Guid { data1: 0xbfb9d5e0, data2: 0xc6a9, data3: 0x404c, data4: [0xb2, 0xb2, 0xae, 0x6d, 0xb6, 0xaf, 0x49, 0x68] }),
        FolderId::UsersFiles => (Guid { data1: 0xf3ce0f7c, data2: 0x4901, data3: 0x4acc, data4: [0x86, 0x48, 0xd5, 0xd4, 0x4b, 0x04, 0xef, 0x8f] }),
        FolderId::UsersLibraries => (Guid { data1: 0xa302545d, data2: 0xdeff, data3: 0x464b, data4: [0xab, 0xe8, 0x61, 0xc8, 0x64, 0x8d, 0x93, 0x9b] }),
        FolderId::SearchHome => (Guid { data1: 0x190337d1, data2: 0xb8ca, data3: 0x4121, data4: [0xa6, 0x39, 0x6d, 0x47, 0x2d, 0x16, 0x97, 0x2a] }),
        FolderId::OriginalImages => (Guid { data1: 0x2c36c0aa, data2: 0x5812, data3: 0x4b87, data4: [0xbf, 0xd0, 0x4c, 0xd0, 0xdf, 0xb1, 0x9b, 0x39] }),
        FolderId::DocumentsLibrary => (Guid { data1: 0x7b0db17d, data2: 0x9cd2, data3: 0x4a93, data4: [0x97, 0x33, 0x46, 0xcc, 0x89, 0x02, 0x2e, 0x7c] }),
        FolderId::MusicLibrary => (Guid { data1: 0x2112ab0a, data2: 0xc86a, data3: 0x4ffe, data4: [0xa3, 0x68, 0x0d, 0xe9, 0x6e, 0x47, 0x01, 0x2e] }),
        FolderId::PicturesLibrary => (Guid { data1: 0xa990ae9f, data2: 0xa03b, data3: 0x4e80, data4: [0x94, 0xbc, 0x99, 0x12, 0xd7, 0x50, 0x41, 0x4] }),
        FolderId::VideosLibrary => (Guid { data1: 0x491e922f, data2: 0x5643, data3: 0x4af4, data4: [0xa7, 0xeb, 0x4e, 0x7a, 0x13, 0x8d, 0x81, 0x74] }),
        FolderId::RecordedTVLibrary => (Guid { data1: 0x1a6fdba2, data2: 0xf42d, data3: 0x4358, data4: [0xa7, 0x98, 0xb7, 0x4d, 0x74, 0x59, 0x26, 0xc5] }),
        FolderId::HomeGroup => (Guid { data1: 0x52528a6b, data2: 0xb9e3, data3: 0x4add, data4: [0xb6, 0x0d, 0x58, 0x8c, 0x2d, 0xba, 0x84, 0x2d] }),
        FolderId::HomeGroupCurrentUser => (Guid { data1: 0x9b74b6a3, data2: 0x0dfd, data3: 0x4f11, data4: [0x9e, 0x78, 0x5f, 0x78, 0x00, 0xf2, 0xe7, 0x72] }),
        FolderId::DeviceMetadataStore => (Guid { data1: 0x5ce4a5e9, data2: 0xe4eb, data3: 0x479d, data4: [0xb8, 0x9f, 0x13, 0x0c, 0x02, 0x88, 0x61, 0x55] }),
        FolderId::Libraries => (Guid { data1: 0x1b3ea5dc, data2: 0xb587, data3: 0x4786, data4: [0xb4, 0xef, 0xbd, 0x1d, 0xc3, 0x32, 0xae, 0xae] }),
        FolderId::PublicLibraries => (Guid { data1: 0x48daf80b, data2: 0xe6cf, data3: 0x4f4e, data4: [0xb8, 0x00, 0x0e, 0x69, 0xd8, 0x4e, 0xe3, 0x84] }),
        FolderId::UserPinned => (Guid { data1: 0x9e3995ab, data2: 0x1f9c, data3: 0x4f13, data4: [0xb8, 0x27, 0x48, 0xb2, 0x4b, 0x6c, 0x71, 0x74] }),
        FolderId::ImplicitAppShortcuts => (Guid { data1: 0xbcb5256f, data2: 0x79f6, data3: 0x4cee, data4: [0xb7, 0x25, 0xdc, 0x34, 0xe4, 0x02, 0xfd, 0x46] }),
        FolderId::AccountPictures => (Guid { data1: 0x008ca0b1, data2: 0x55b4, data3: 0x4c56, data4: [0xb8, 0xa8, 0x4d, 0xe4, 0xb2, 0x99, 0xd3, 0xbe] }),
        FolderId::PublicUserTiles => (Guid { data1: 0x0482af6c, data2: 0x08f1, data3: 0x4c34, data4: [0x8c, 0x90, 0xe1, 0x7e, 0xc9, 0x8b, 0x1e, 0x17] }),
        FolderId::AppsFolder => (Guid { data1: 0x1e87508d, data2: 0x89c2, data3: 0x42f0, data4: [0x8a, 0x7e, 0x64, 0x5a, 0x0f, 0x50, 0xca, 0x58] }),
        FolderId::StartMenuAllPrograms => (Guid { data1: 0xf26305ef, data2: 0x6948, data3: 0x40b9, data4: [0xb2, 0x55, 0x81, 0x45, 0x3d, 0x09, 0xc7, 0x85] }),
        FolderId::CommonStartMenuPlaces => (Guid { data1: 0xa440879f, data2: 0x87a0, data3: 0x4f7d, data4: [0xb7, 0x00, 0x02, 0x07, 0xb9, 0x66, 0x19, 0x4a] }),
        FolderId::ApplicationShortcuts => (Guid { data1: 0xa3918781, data2: 0xe5f2, data3: 0x4890, data4: [0xb3, 0xd9, 0xa7, 0xe5, 0x43, 0x32, 0x32, 0x8c] }),
        FolderId::RoamingTiles => (Guid { data1: 0x00bcfc5a, data2: 0xed94, data3: 0x4e48, data4: [0x96, 0xa1, 0x3f, 0x62, 0x17, 0xf2, 0x19, 0x90] }),
        FolderId::RoamedTileImages => (Guid { data1: 0xaaa8d5a5, data2: 0xf1d6, data3: 0x4259, data4: [0xba, 0xa8, 0x78, 0xe7, 0xef, 0x60, 0x83, 0x5e] }),
        FolderId::Screenshots => (Guid { data1: 0xb7bede81, data2: 0xdf94, data3: 0x4682, data4: [0xa7, 0xd8, 0x57, 0xa5, 0x26, 0x20, 0xb8, 0x6f] }),
        FolderId::CameraRoll => (Guid { data1: 0xab5fb87b, data2: 0x7ce2, data3: 0x4f83, data4: [0x91, 0x5d, 0x55, 0x08, 0x46, 0xc9, 0x53, 0x7b] }),
        FolderId::SkyDrive => (Guid { data1: 0xa52bba46, data2: 0xe9e1, data3: 0x435f, data4: [0xb3, 0xd9, 0x28, 0xda, 0xa6, 0x48, 0xc0, 0xf6] }),
        FolderId::OneDrive => (Guid { data1: 0xa52bba46, data2: 0xe9e1, data3: 0x435f, data4: [0xb3, 0xd9, 0x28, 0xda, 0xa6, 0x48, 0xc0, 0xf6] }),
        FolderId::SkyDriveDocuments => (Guid { data1: 0x24d89e24, data2: 0x2f19, data3: 0x4534, data4: [0x9d, 0xde, 0x6a, 0x66, 0x71, 0xfb, 0xb8, 0xfe] }),
        FolderId::SkyDrivePictures => (Guid { data1: 0x339719b5, data2: 0x8c47, data3: 0x4894, data4: [0x94, 0xc2, 0xd8, 0xf7, 0x7a, 0xdd, 0x44, 0xa6] }),
        FolderId::SkyDriveMusic => (Guid { data1: 0xc3f2459e, data2: 0x80d6, data3: 0x45dc, data4: [0xbf, 0xef, 0x1f, 0x76, 0x9f, 0x2b, 0xe7, 0x30] }),
        FolderId::SkyDriveCameraRoll => (Guid { data1: 0x767e6811, data2: 0x49cb, data3: 0x4273, data4: [0x87, 0xc2, 0x20, 0xf3, 0x55, 0xe1, 0x08, 0x5b] }),
        FolderId::SearchHistory => (Guid { data1: 0x0d4c3db6, data2: 0x03a3, data3: 0x462f, data4: [0xa0, 0xe6, 0x08, 0x92, 0x4c, 0x41, 0xb5, 0xd4] }),
        FolderId::SearchTemplates => (Guid { data1: 0x7e636bfe, data2: 0xdfa9, data3: 0x4d5e, data4: [0xb4, 0x56, 0xd7, 0xb3, 0x98, 0x51, 0xd8, 0xa9] }),
        FolderId::CameraRollLibrary => (Guid { data1: 0x2b20df75, data2: 0x1eda, data3: 0x4039, data4: [0x80, 0x97, 0x38, 0x79, 0x82, 0x27, 0xd5, 0xb7] }),
        FolderId::SavedPictures => (Guid { data1: 0x3b193882, data2: 0xd3ad, data3: 0x4eab, data4: [0x96, 0x5a, 0x69, 0x82, 0x9d, 0x1f, 0xb5, 0x9f] }),
        FolderId::SavedPicturesLibrary => (Guid { data1: 0xe25b5812, data2: 0xbe88, data3: 0x4bd9, data4: [0x94, 0xb0, 0x29, 0x23, 0x34, 0x77, 0xb6, 0xc3] }),
        FolderId::RetailDemo => (Guid { data1: 0x12d4c69e, data2: 0x24ad, data3: 0x4923, data4: [0xbe, 0x19, 0x31, 0x32, 0x1c, 0x43, 0xa7, 0x67] }),
        FolderId::Device => (Guid { data1: 0x1c2ac1dc, data2: 0x4358, data3: 0x4b6c, data4: [0x97, 0x33, 0xaf, 0x21, 0x15, 0x65, 0x76, 0xf0] }),
        FolderId::DevelopmentFiles => (Guid { data1: 0xdbe8e08e, data2: 0x3053, data3: 0x4bbc, data4: [0xb1, 0x83, 0x2a, 0x7b, 0x2b, 0x19, 0x1e, 0x59] }),
        FolderId::Objects3D => (Guid { data1: 0x31c0dd25, data2: 0x9439, data3: 0x4f12, data4: [0xbf, 0x41, 0x7f, 0xf4, 0xed, 0xa3, 0x87, 0x22] }),
        FolderId::AppCaptures => (Guid { data1: 0xedc0fe71, data2: 0x98d8, data3: 0x4f4a, data4: [0xb9, 0x20, 0xc8, 0xdc, 0x13, 0x3c, 0xb1, 0x65] }),
        FolderId::LocalDocuments => (Guid { data1: 0xf42ee2d3, data2: 0x909f, data3: 0x4907, data4: [0x88, 0x71, 0x4c, 0x22, 0xfc, 0x0b, 0xf7, 0x56] }),
        FolderId::LocalPictures => (Guid { data1: 0x0ddd015d, data2: 0xb06c, data3: 0x45d5, data4: [0x8c, 0x4c, 0xf5, 0x97, 0x13, 0x85, 0x46, 0x39] }),
        FolderId::LocalVideos => (Guid { data1: 0x35286a68, data2: 0x3c57, data3: 0x41a1, data4: [0xbb, 0xb1, 0x0e, 0xae, 0x73, 0xd7, 0x6c, 0x95] }),
        FolderId::LocalMusic => (Guid { data1: 0xa0c69a99, data2: 0x21c8, data3: 0x4671, data4: [0x87, 0x03, 0x79, 0x34, 0x16, 0x2f, 0xcf, 0x1d] }),
        FolderId::LocalDownloads => (Guid { data1: 0x7d83ee9b, data2: 0x2244, data3: 0x4e70, data4: [0xb1, 0xf5, 0x53, 0x93, 0x04, 0x2a, 0xf1, 0xe4] }),
        FolderId::RecordedCalls => (Guid { data1: 0x2f8b40c2, data2: 0x83ed, data3: 0x48ee, data4: [0xb3, 0x83, 0xa1, 0xf1, 0x57, 0xec, 0x6f, 0x9a] }),
        FolderId::AllAppMods => (Guid { data1: 0x7ad67899, data2: 0x66af, data3: 0x43ba, data4: [0x91, 0x56, 0x6a, 0xad, 0x42, 0xe6, 0xc5, 0x96] }),
        FolderId::CurrentAppMods => (Guid { data1: 0x3db40b20, data2: 0x2a30, data3: 0x4dbe, data4: [0x91, 0x7e, 0x77, 0x1d, 0xd2, 0x1d, 0xd0, 0x99] }),
        FolderId::AppDataDesktop => (Guid { data1: 0xb2c5e279, data2: 0x7add, data3: 0x439f, data4: [0xb2, 0x8c, 0xc4, 0x1f, 0xe1, 0xbb, 0xf6, 0x72] }),
        FolderId::AppDataDocuments => (Guid { data1: 0x7be16610, data2: 0x1f7f, data3: 0x44ac, data4: [0xbf, 0xf0, 0x83, 0xe1, 0x5f, 0x2f, 0xfc, 0xa1] }),
        FolderId::AppDataFavorites => (Guid { data1: 0x7cfbefbc, data2: 0xde1f, data3: 0x45aa, data4: [0xb8, 0x43, 0xa5, 0x42, 0xac, 0x53, 0x6c, 0xc9] }),
        FolderId::AppDataProgramData => (Guid { data1: 0x559d40a3, data2: 0xa036, data3: 0x40fa, data4: [0xaf, 0x61, 0x84, 0xcb, 0x43, 0x0a, 0x4d, 0x34] }),
    }
}

/// Looks the catalog entry's platform identifier up.
pub fn guid_of(id: FolderId) -> (g: Guid)
    ensures
        g == folder_guid(id),
{
    match id {
        FolderId::NetworkFolder => Guid { data1: 0xd20beec4, data2: 0x5ca8, data3: 0x4905, data4: [0xae, 0x3b, 0xbf, 0x25, 0x1e, 0xa0, 0x9b, 0x53] },
        FolderId::ComputerFolder => Guid { data1: 0x0ac0837c, data2: 0xbbf8, data3: 0x452a, data4: [0x85, 0x0d, 0x79, 0xd0, 0x8e, 0x66, 0x7c, 0xa7] },
        FolderId::InternetFolder => Guid { data1: 0x4d9f7874, data2: 0x4e0c, data3: 0x4904, data4: [0x96, 0x7b, 0x40, 0xb0, 0xd2, 0x0c, 0x3e, 0x4b] },
        FolderId::ControlPanelFolder => Guid { data1: 0x82a74aeb, data2: 0xaeb4, data3: 0x465c, data4: [0xa0, 0x14, 0xd0, 0x97, 0xee, 0x34, 0x6d, 0x63] },
        FolderId::PrintersFolder => Guid { data1: 0x76fc4e2d, data2: 0xd6ad, data3: 0x4519, data4: [0xa6, 0x63, 0x37, 0xbd, 0x56, 0x06, 0x81, 0x85] },
        FolderId::SyncManagerFolder => Guid { data1: 0x43668bf8, data2: 0xc14e, data3: 0x49b2, data4: [0x97, 0xc9, 0x74, 0x77, 0x84, 0xd7, 0x84, 0xb7] },
        FolderId::SyncSetupFolder => Guid { data1: 0x0f214138, data2: 0xb1d3, data3: 0x4a90, data4: [0xbb, 0xa9, 0x27, 0xcb, 0xc0, 0xc5, 0x38, 0x9a] },
        FolderId::ConflictFolder => Guid { data1: 0x4bfefb45, data2: 0x347d, data3: 0x4006, data4: [0xa5, 0xbe, 0xac, 0x0c, 0xb0, 0x56, 0x71, 0x92] },
        FolderId::SyncResultsFolder => Guid { data1: 0x289a9a43, data2: 0xbe44, data3: 0x4057, data4: [0xa4, 0x1b, 0x58, 0x7a, 0x76, 0xd7, 0xe7, 0xf9] },
        FolderId::RecycleBinFolder => Guid { data1: 0xb7534046, data2: 0x3ecb, data3: 0x4c18, data4: [0xbe, 0x4e, 0x64, 0xcd, 0x4c, 0xb7, 0xd6, 0xac] },
        FolderId::ConnectionsFolder => Guid { data1: 0x6f0cd92b, data2: 0x2e97, data3: 0x45d1, data4: [0x88, 0xff, 0xb0, 0xd1, 0x86, 0xb8, 0xde, 0xdd] },
        FolderId::Fonts => Guid { data1: 0xfd228cb7, data2: 0xae11, data3: 0x4ae3, data4: [0x86, 0x4c, 0x16, 0xf3, 0x91, 0x0a, 0xb8, 0xfe] },
        FolderId::Desktop => Guid { data1: 0xb4bfcc3a, data2: 0xdb2c, data3: 0x424c, data4: [0xb0, 0x29, 0x7f, 0xe9, 0x9a, 0x87, 0xc6, 0x41] },
        FolderId::Startup => Guid { data1: 0xb97d20bb, data2: 0xf46a, data3: 0x4c97, data4: [0xba, 0x10, 0x5e, 0x36, 0x08, 0x43, 0x08, 0x54] },
        FolderId::Programs => Guid { data1: 0xa77f5d77, data2: 0x2e2b, data3: 0x44c3, data4: [0xa6, 0xa2, 0xab, 0xa6, 0x01, 0x05, 0x4a, 0x51] },
        FolderId::StartMenu => Guid { data1: 0x625b53c3, data2: 0xab48, data3: 0x4ec1, data4: [0xba, 0x1f, 0xa1, 0xef, 0x41, 0x46, 0xfc, 0x19] },
        FolderId::Recent => Guid { data1: 0xae50c081, data2: 0xebd2, data3: 0x438a, data4: [0x86, 0x55, 0x8a, 0x09, 0x2e, 0x34, 0x98, 0x7a] },
        FolderId::SendTo => Guid { data1: 0x8983036c, data2: 0x27c0, data3: 0x404b, data4: [0x8f, 0x08, 0x10, 0x2d, 0x10, 0xdc, 0xfd, 0x74] },
        FolderId::Documents => Guid { data1: 0xfdd39ad0, data2: 0x238f, data3: 0x46af, data4: [0xad, 0xb4, 0x6c, 0x85, 0x48, 0x03, 0x69, 0xc7] },
        FolderId::Favorites => Guid { data1: 0x1777f761, data2: 0x68ad, data3: 0x4d8a, data4: [0x87, 0xbd, 0x30, 0xb7, 0x59, 0xfa, 0x33, 0xdd] },
        FolderId::NetHood => Guid { data1: 0xc5abbf53, data2: 0xe17f, data3: 0x4121, data4: [0x89, 0x00, 0x86, 0x62, 0x6f, 0xc2, 0xc9, 0x73] },
        FolderId::PrintHood => Guid { data1: 0x9274bd8d, data2: 0xcfd1, data3: 0x41c3, data4: [0xb3, 0x5e, 0xb1, 0x3f, 0x55, 0xa7, 0x58, 0xf4] },
        FolderId::Templates => Guid { data1: 0xa63293e8, data2: 0x664e, data3: 0x48db, data4: [0xa0, 0x79, 0xdf, 0x75, 0x9e, 0x05, 0x09, 0xf7] },
        FolderId::CommonStartup => Guid { data1: 0x82a5ea35, data2: 0xd9cd, data3: 0x47c5, data4: [0x96, 0x29, 0xe1, 0x5d, 0x2f, 0x71, 0x4e, 0x6e] },
        FolderId::CommonPrograms => Guid { data1: 0x0139d44e, data2: 0x6afe, data3: 0x49f2, data4: [0x86, 0x90, 0x3d, 0xaf, 0xca, 0xe6, 0xff, 0xb8] },
        FolderId::CommonStartMenu => Guid { data1: 0xa4115719, data2: 0xd62e, data3: 0x491d, data4: [0xaa, 0x7c, 0xe7, 0x4b, 0x8b, 0xe3, 0xb0, 0x67] },
        FolderId::PublicDesktop => Guid { data1: 0xc4aa340d, data2: 0xf20f, data3: 0x4863, data4: [0xaf, 0xef, 0xf8, 0x7e, 0xf2, 0xe6, 0xba, 0x25] },
        FolderId::ProgramData => Guid { data1: 0x62ab5d82, data2: 0xfdc1, data3: 0x4dc3, data4: [0xa9, 0xdd, 0x07, 0x0d, 0x1d, 0x49, 0x5d, 0x97] },
        FolderId::CommonTemplates => Guid { data1: 0xb94237e7, data2: 0x57ac, data3: 0x4347, data4: [0x91, 0x51, 0xb0, 0x8c, 0x6c, 0x32, 0xd1, 0xf7] },
        FolderId::PublicDocuments => Guid { data1: 0xed4824af, data2: 0xdce4, data3: 0x45a8, data4: [0x81, 0xe2, 0xfc, 0x79, 0x65, 0x08, 0x36, 0x34] },
        FolderId::RoamingAppData => Guid { data1: 0x3eb685db, data2: 0x65f9, data3: 0x4cf6, data4: [0xa0, 0x3a, 0xe3, 0xef, 0x65, 0x72, 0x9f, 0x3d] },
        FolderId::LocalAppData => Guid { data1: 0xf1b32785, data2: 0x6fba, data3: 0x4fcf, data4: [0x9d, 0x55, 0x7b, 0x8e, 0x7f, 0x15, 0x70, 0x91] },
        FolderId::LocalAppDataLow => Guid { data1: 0xa520a1a4, data2: 0x1780, data3: 0x4ff6, data4: [0xbd, 0x18, 0x16, 0x73, 0x43, 0xc5, 0xaf, 0x16] },
        FolderId::InternetCache => Guid { data1: 0x352481e8, data2: 0x33be, data3: 0x4251, data4: [0xba, 0x85, 0x60, 0x07, 0xca, 0xed, 0xcf, 0x9d] },
        FolderId::Cookies => Guid { data1: 0x2b0f765d, data2: 0xc0e9, data3: 0x4171, data4: [0x90, 0x8e, 0x08, 0xa6, 0x11, 0xb8, 0x4f, 0xf6] },
        FolderId::History => Guid { data1: 0xd9dc8a3b, data2: 0xb784, data3: 0x432e, data4: [0xa7, 0x81, 0x5a, 0x11, 0x30, 0xa7, 0x59, 0x63] },
        FolderId::System => Guid { data1: 0x1ac14e77, data2: 0x02e7, data3: 0x4e5d, data4: [0xb7, 0x44, 0x2e, 0xb1, 0xae, 0x51, 0x98, 0xb7] },
        FolderId::SystemX86 => Guid { data1: 0xd65231b0, data2: 0xb2f1, data3: 0x4857, data4: [0xa4, 0xce, 0xa8, 0xe7, 0xc6, 0xea, 0x7d, 0x27] },
        FolderId::Windows => Guid { data1: 0xf38bf404, data2: 0x1d43, data3: 0x42f2, data4: [0x93, 0x05, 0x67, 0xde, 0x0b, 0x28, 0xfc, 0x23] },
        FolderId::Profile => Guid { data1: 0x5e6c858f, data2: 0x0e22, data3: 0x4760, data4: [0x9a, 0xfe, 0xea, 0x33, 0x17, 0xb6, 0x71, 0x73] },
        FolderId::Pictures => Guid { data1: 0x33e28130, data2: 0x4e1e, data3: 0x4676, data4: [0x83, 0x5a, 0x98, 0x39, 0x5c, 0x3b, 0xc3, 0xbb] },
        FolderId::ProgramFilesX86 => Guid { data1: 0x7c5a40ef, data2: 0xa0fb, data3: 0x4bfc, data4: [0x87, 0x4a, 0xc0, 0xf2, 0xe0, 0xb9, 0xfa, 0x8e] },
        FolderId::ProgramFilesCommonX86 => Guid { data1: 0xde974d24, data2: 0xd9c6, data3: 0x4d3e, data4: [0xbf, 0x91, 0xf4, 0x45, 0x51, 0x20, 0xb9, 0x17] },
        FolderId::ProgramFilesX64 => Guid { data1: 0x6d809377, data2: 0x6af0, data3: 0x444b, data4: [0x89, 0x57, 0xa3, 0x77, 0x3f, 0x02, 0x20, 0x0e] },
        FolderId::ProgramFilesCommonX64 => Guid { data1: 0x6365d5a7, data2: 0x0f0d, data3: 0x45e5, data4: [0x87, 0xf6, 0x0d, 0xa5, 0x6b, 0x6a, 0x4f, 0x7d] },
        FolderId::ProgramFiles => Guid { data1: 0x905e63b6, data2: 0xc1bf, data3: 0x494e, data4: [0xb2, 0x9c, 0x65, 0xb7, 0x32, 0xd3, 0xd2, 0x1a] },
        FolderId::ProgramFilesCommon => Guid { data1: 0xf7f1ed05, data2: 0x9f6d, data3: 0x47a2, data4: [0xaa, 0xae, 0x29, 0xd3, 0x17, 0xc6, 0xf0, 0x66] },
        FolderId::UserProgramFiles => Guid { data1: 0x5cd7aee2, data2: 0x2219, data3: 0x4a67, data4: [0xb8, 0x5d, 0x6c, 0x9c, 0xe1, 0x56, 0x60, 0xcb] },
        FolderId::UserProgramFilesCommon => Guid { data1: 0xbcbd3057, data2: 0xca5c, data3: 0x4622, data4: [0xb4, 0x2d, 0xbc, 0x56, 0xdb, 0x0a, 0xe5, 0x16] },
        FolderId::AdminTools => Guid { data1: 0x724ef170, data2: 0xa42d, data3: 0x4fef, data4: [0x9f, 0x26, 0xb6, 0x0e, 0x84, 0x6f, 0xba, 0x4f] },
        FolderId::CommonAdminTools => Guid { data1: 0xd0384e7d, data2: 0xbac3, data3: 0x4797, data4: [0x8f, 0x14, 0xcb, 0xa2, 0x29, 0xb3, 0x92, 0xb5] },
        FolderId::Music => Guid { data1: 0x4bd8d571, data2: 0x6d19, data3: 0x48d3, data4: [0xbe, 0x97, 0x42, 0x22, 0x20, 0x08, 0x0e, 0x43] },
        FolderId::Videos => Guid { data1: 0x18989b1d, data2: 0x99b5, data3: 0x455b, data4: [0x84, 0x1c, 0xab, 0x7c, 0x74, 0xe4, 0xdd, 0xfc] },
        FolderId::Ringtones => Guid { data1: 0xc870044b, data2: 0xf49e, data3: 0x4126, data4: [0xa9, 0xc3, 0xb5, 0x2a, 0x1f, 0xf4, 0x11, 0xe8] },
        FolderId::PublicPictures => Guid { data1: 0xb6ebfb86, data2: 0x6907, data3: 0x413c, data4: [0x9a, 0xf7, 0x4f, 0xc2, 0xab, 0xf0, 0x7c, 0xc5] },
        FolderId::PublicMusic => Guid { data1: 0x3214fab5, data2: 0x9757, data3: 0x4298, data4: [0xbb, 0x61, 0x92, 0xa9, 0xde, 0xaa, 0x44, 0xff] },
        FolderId::PublicVideos => Guid { data1: 0x2400183a, data2: 0x6185, data3: 0x49fb, data4: [0xa2, 0xd8, 0x4a, 0x39, 0x2a, 0x60, 0x2b, 0xa3] },
        FolderId::PublicRingtones => Guid { data1: 0xe555ab60, data2: 0x153b, data3: 0x4d17, data4: [0x9f, 0x04, 0xa5, 0xfe, 0x99, 0xfc, 0x15, 0xec] },
        FolderId::ResourceDir => Guid { data1: 0x8ad10c31, data2: 0x2adb, data3: 0x4296, data4: [0xa8, 0xf7, 0xe4, 0x70, 0x12, 0x32, 0xc9, 0x72] },
        FolderId::LocalizedResourcesDir => Guid { data1: 0x2a00375e, data2: 0x224c, data3: 0x49de, data4: [0xb8, 0xd1, 0x44, 0x0d, 0xf7, 0xef, 0x3d, 0xdc] },
        FolderId::CommonOEMLinks => Guid { data1: 0xc1bae2d0, data2: 0x10df, data3: 0x4334, data4: [0xbe, 0xdd, 0x7a, 0xa2, 0x0b, 0x22, 0x7a, 0x9d] },
        FolderId::CDBurning => Guid { data1: 0x9e52ab10, data2: 0xf80d, data3: 0x49df, data4: [0xac, 0xb8, 0x43, 0x30, 0xf5, 0x68, 0x78, 0x55] },
        FolderId::UserProfiles => Guid { data1: 0x0762d272, data2: 0xc50a, data3: 0x4bb0, data4: [0xa3, 0x82, 0x69, 0x7d, 0xcd, 0x72, 0x9b, 0x80] },
        FolderId::Playlists => Guid { data1: 0xde92c1c7, data2: 0x837f, data3: 0x4f69, data4: [0xa3, 0xbb, 0x86, 0xe6, 0x31, 0x20, 0x4a, 0x23] },
        FolderId::SamplePlaylists => Guid { data1: 0x15ca69b3, data2: 0x30ee, data3: 0x49c1, data4: [0xac, 0xe1, 0x6b, 0x5e, 0xc3, 0x72, 0xaf, 0xb5] },
        FolderId::SampleMusic => Guid { data1: 0xb250c668, data2: 0xf57d, data3: 0x4ee1, data4: [0xa6, 0x3c, 0x29, 0x0e, 0xe7, 0xd1, 0xaa, 0x1f] },
        FolderId::SamplePictures => Guid { data1: 0xc4900540, data2: 0x2379, data3: 0x4c75, data4: [0x84, 0x4b, 0x64, 0xe6, 0xfa, 0xf8, 0x71, 0x6b] },
        FolderId::SampleVideos => Guid { data1: 0x859ead94, data2: 0x2e85, data3: 0x48ad, data4: [0xa7, 0x1a, 0x09, 0x69, 0xcb, 0x56, 0xa6, 0xcd] },
        FolderId::PhotoAlbums => Guid { data1: 0x69d2cf90, data2: 0xfc33, data3: 0x4fb7, data4: [0x9a, 0x0c, 0xeb, 0xb0, 0xf0, 0xfc, 0xb4, 0x3c] },
        FolderId::Public => Guid { data1: 0xdfdf76a2, data2: 0xc82a, data3: 0x4d63, data4: [0x90, 0x6a, 0x56, 0x44, 0xac, 0x45, 0x73, 0x85] },
        FolderId::ChangeRemovePrograms => Guid { data1: 0xdf7266ac, data2: 0x9274, data3: 0x4867, data4: [0x8d, 0x55, 0x3b, 0xd6, 0x61, 0xde, 0x87, 0x2d] },
        FolderId::AppUpdates => Guid { data1: 0xa305ce99, data2: 0xf527, data3: 0x492b, data4: [0x8b, 0x1a, 0x7e, 0x76, 0xfa, 0x98, 0xd6, 0xe4] },
        FolderId::AddNewPrograms => Guid { data1: 0xde61d971, data2: 0x5ebc, data3: 0x4f02, data4: [0xa3, 0xa9, 0x6c, 0x82, 0x89, 0x5e, 0x5c, 0x04] },
        FolderId::Downloads => Guid { data1: 0x374de290, data2: 0x123f, data3: 0x4565, data4: [0x91, 0x64, 0x39, 0xc4, 0x92, 0x5e, 0x46, 0x7b] },
        FolderId::PublicDownloads => Guid { data1: 0x3d644c9b, data2: 0x1fb8, data3: 0x4f30, data4: [0x9b, 0x45, 0xf6, 0x70, 0x23, 0x5f, 0x79, 0xc0] },
        FolderId::SavedSearches => Guid { data1: 0x7d1d3a04, data2: 0xdebb, data3: 0x4115, data4: [0x95, 0xcf, 0x2f, 0x29, 0xda, 0x29, 0x20, 0xda] },
        FolderId::QuickLaunch => Guid { data1: 0x52a4f021, data2: 0x7b75, data3: 0x48a9, data4: [0x9f, 0x6b, 0x4b, 0x87, 0xa2, 0x10, 0xbc, 0x8f] },
        FolderId::Contacts => Guid { data1: 0x56784854, data2: 0xc6cb, data3: 0x462b, data4: [0x81, 0x69, 0x88, 0xe3, 0x50, 0xac, 0xb8, 0x82] },
        FolderId::SidebarParts => Guid { data1: 0xa75d362e, data2: 0x50fc, data3: 0x4fb7, data4: [0xac, 0x2c, 0xa8, 0xbe, 0xaa, 0x31, 0x44, 0x93] },
        FolderId::SidebarDefaultParts => Guid { data1: 0x7b396e54, data2: 0x9ec5, data3: 0x4300, data4: [0xbe, 0x0a, 0x24, 0x82, 0xeb, 0xae, 0x1a, 0x26] },
        FolderId::PublicGameTasks => Guid { data1: 0xdebf2536, data2: 0xe1a8, data3: 0x4c59, data4: [0xb6, 0xa2, 0x41, 0x45, 0x86, 0x47, 0x6a, 0xea] },
        FolderId::GameTasks => Guid { data1: 0x054fae61, data2: 0x4dd8, data3: 0x4787, data4: [0x80, 0xb6, 0x09, 0x02, 0x20, 0xc4, 0xb7, 0x0] },
        FolderId::SavedGames => Guid { data1: 0x4c5c32ff, data2: 0xbb9d, data3: 0x43b0, data4: [0xb5, 0xb4, 0x2d, 0x72, 0xe5, 0x4e, 0xaa, 0xa4] },
        FolderId::Games => Guid { data1: 0xcac52c1a, data2: 0xb53d, data3: 0x4edc, data4: [0x92, 0xd7, 0x6b, 0x2e, 0x8a, 0xc1, 0x94, 0x34] },
        FolderId::SearchMapi => Guid { data1: 0x98ec0e18, data2: 0x2098, data3: 0x4d44, data4: [0x86, 0x44, 0x66, 0x97, 0x93, 0x15, 0xa2, 0x81] },
        FolderId::SearchCsc => Guid { data1: 0xee32e446, data2: 0x31ca, data3: 0x4aba, data4: [0x81, 0x4f, 0xa5, 0xeb, 0xd2, 0xfd, 0x6d, 0x5e] },
        FolderId::Links => Guid { data1: 0xbfb9d5e0, data2: 0xc6a9, data3: 0x404c, data4: [0xb2, 0xb2, 0xae, 0x6d, 0xb6, 0xaf, 0x49, 0x68] },
        FolderId::UsersFiles => Guid { data1: 0xf3ce0f7c, data2: 0x4901, data3: 0x4acc, data4: [0x86, 0x48, 0xd5, 0xd4, 0x4b, 0x04, 0xef, 0x8f] },
        FolderId::UsersLibraries => Guid { data1: 0xa302545d, data2: 0xdeff, data3: 0x464b, data4: [0xab, 0xe8, 0x61, 0xc8, 0x64, 0x8d, 0x93, 0x9b] },
        FolderId::SearchHome => Guid { data1: 0x190337d1, data2: 0xb8ca, data3: 0x4121, data4: [0xa6, 0x39, 0x6d, 0x47, 0x2d, 0x16, 0x97, 0x2a] },
        FolderId::OriginalImages => Guid { data1: 0x2c36c0aa, data2: 0x5812, data3: 0x4b87, data4: [0xbf, 0xd0, 0x4c, 0xd0, 0xdf, 0xb1, 0x9b, 0x39] },
        FolderId::DocumentsLibrary => Guid { data1: 0x7b0db17d, data2: 0x9cd2, data3: 0x4a93, data4: [0x97, 0x33, 0x46, 0xcc, 0x89, 0x02, 0x2e, 0x7c] },
        FolderId::MusicLibrary => Guid { data1: 0x2112ab0a, data2: 0xc86a, data3: 0x4ffe, data4: [0xa3, 0x68, 0x0d, 0xe9, 0x6e, 0x47, 0x01, 0x2e] },
        FolderId::PicturesLibrary => Guid { data1: 0xa990ae9f, data2: 0xa03b, data3: 0x4e80, data4: [0x94, 0xbc, 0x99, 0x12, 0xd7, 0x50, 0x41, 0x4] },
        FolderId::VideosLibrary => Guid { data1: 0x491e922f, data2: 0x5643, data3: 0x4af4, data4: [0xa7, 0xeb, 0x4e, 0x7a, 0x13, 0x8d, 0x81, 0x74] },
        FolderId::RecordedTVLibrary => Guid { data1: 0x1a6fdba2, data2: 0xf42d, data3: 0x4358, data4: [0xa7, 0x98, 0xb7, 0x4d, 0x74, 0x59, 0x26, 0xc5] },
        FolderId::HomeGroup => Guid { data1: 0x52528a6b, data2: 0xb9e3, data3: 0x4add, data4: [0xb6, 0x0d, 0x58, 0x8c, 0x2d, 0xba, 0x84, 0x2d] },
        FolderId::HomeGroupCurrentUser => Guid { data1: 0x9b74b6a3, data2: 0x0dfd, data3: 0x4f11, data4: [0x9e, 0x78, 0x5f, 0x78, 0x00, 0xf2, 0xe7, 0x72] },
        FolderId::DeviceMetadataStore => Guid { data1: 0x5ce4a5e9, data2: 0xe4eb, data3: 0x479d, data4: [0xb8, 0x9f, 0x13, 0x0c, 0x02, 0x88, 0x61, 0x55] },
        FolderId::Libraries => Guid { data1: 0x1b3ea5dc, data2: 0xb587, data3: 0x4786, data4: [0xb4, 0xef, 0xbd, 0x1d, 0xc3, 0x32, 0xae, 0xae] },
        FolderId::PublicLibraries => Guid { data1: 0x48daf80b, data2: 0xe6cf, data3: 0x4f4e, data4: [0xb8, 0x00, 0x0e, 0x69, 0xd8, 0x4e, 0xe3, 0x84] },
        FolderId::UserPinned => Guid { data1: 0x9e3995ab, data2: 0x1f9c, data3: 0x4f13, data4: [0xb8, 0x27, 0x48, 0xb2, 0x4b, 0x6c, 0x71, 0x74] },
        FolderId::ImplicitAppShortcuts => Guid { data1: 0xbcb5256f, data2: 0x79f6, data3: 0x4cee, data4: [0xb7, 0x25, 0xdc, 0x34, 0xe4, 0x02, 0xfd, 0x46] },
        FolderId::AccountPictures => Guid { data1: 0x008ca0b1, data2: 0x55b4, data3: 0x4c56, data4: [0xb8, 0xa8, 0x4d, 0xe4, 0xb2, 0x99, 0xd3, 0xbe] },
        FolderId::PublicUserTiles => Guid { data1: 0x0482af6c, data2: 0x08f1, data3: 0x4c34, data4: [0x8c, 0x90, 0xe1, 0x7e, 0xc9, 0x8b, 0x1e, 0x17] },
        FolderId::AppsFolder => Guid { data1: 0x1e87508d, data2: 0x89c2, data3: 0x42f0, data4: [0x8a, 0x7e, 0x64, 0x5a, 0x0f, 0x50, 0xca, 0x58] },
        FolderId::StartMenuAllPrograms => Guid { data1: 0xf26305ef, data2: 0x6948, data3: 0x40b9, data4: [0xb2, 0x55, 0x81, 0x45, 0x3d, 0x09, 0xc7, 0x85] },
        FolderId::CommonStartMenuPlaces => Guid { data1: 0xa440879f, data2: 0x87a0, data3: 0x4f7d, data4: [0xb7, 0x00, 0x02, 0x07, 0xb9, 0x66, 0x19, 0x4a] },
        FolderId::ApplicationShortcuts => Guid { data1: 0xa3918781, data2: 0xe5f2, data3: 0x4890, data4: [0xb3, 0xd9, 0xa7, 0xe5, 0x43, 0x32, 0x32, 0x8c] },
        FolderId::RoamingTiles => Guid { data1: 0x00bcfc5a, data2: 0xed94, data3: 0x4e48, data4: [0x96, 0xa1, 0x3f, 0x62, 0x17, 0xf2, 0x19, 0x90] },
        FolderId::RoamedTileImages => Guid { data1: 0xaaa8d5a5, data2: 0xf1d6, data3: 0x4259, data4: [0xba, 0xa8, 0x78, 0xe7, 0xef, 0x60, 0x83, 0x5e] },
        FolderId::Screenshots => Guid { data1: 0xb7bede81, data2: 0xdf94, data3: 0x4682, data4: [0xa7, 0xd8, 0x57, 0xa5, 0x26, 0x20, 0xb8, 0x6f] },
        FolderId::CameraRoll => Guid { data1: 0xab5fb87b, data2: 0x7ce2, data3: 0x4f83, data4: [0x91, 0x5d, 0x55, 0x08, 0x46, 0xc9, 0x53, 0x7b] },
        FolderId::SkyDrive => Guid { data1: 0xa52bba46, data2: 0xe9e1, data3: 0x435f, data4: [0xb3, 0xd9, 0x28, 0xda, 0xa6, 0x48, 0xc0, 0xf6] },
        FolderId::OneDrive => Guid { data1: 0xa52bba46, data2: 0xe9e1, data3: 0x435f, data4: [0xb3, 0xd9, 0x28, 0xda, 0xa6, 0x48, 0xc0, 0xf6] },
        FolderId::SkyDriveDocuments => Guid { data1: 0x24d89e24, data2: 0x2f19, data3: 0x4534, data4: [0x9d, 0xde, 0x6a, 0x66, 0x71, 0xfb, 0xb8, 0xfe] },
        FolderId::SkyDrivePictures => Guid { data1: 0x339719b5, data2: 0x8c47, data3: 0x4894, data4: [0x94, 0xc2, 0xd8, 0xf7, 0x7a, 0xdd, 0x44, 0xa6] },
        FolderId::SkyDriveMusic => Guid { data1: 0xc3f2459e, data2: 0x80d6, data3: 0x45dc, data4: [0xbf, 0xef, 0x1f, 0x76, 0x9f, 0x2b, 0xe7, 0x30] },
        FolderId::SkyDriveCameraRoll => Guid { data1: 0x767e6811, data2: 0x49cb, data3: 0x4273, data4: [0x87, 0xc2, 0x20, 0xf3, 0x55, 0xe1, 0x08, 0x5b] },
        FolderId::SearchHistory => Guid { data1: 0x0d4c3db6, data2: 0x03a3, data3: 0x462f, data4: [0xa0, 0xe6, 0x08, 0x92, 0x4c, 0x41, 0xb5, 0xd4] },
        FolderId::SearchTemplates => Guid { data1: 0x7e636bfe, data2: 0xdfa9, data3: 0x4d5e, data4: [0xb4, 0x56, 0xd7, 0xb3, 0x98, 0x51, 0xd8, 0xa9] },
        FolderId::CameraRollLibrary => Guid { data1: 0x2b20df75, data2: 0x1eda, data3: 0x4039, data4: [0x80, 0x97, 0x38, 0x79, 0x82, 0x27, 0xd5, 0xb7] },
        FolderId::SavedPictures => Guid { data1: 0x3b193882, data2: 0xd3ad, data3: 0x4eab, data4: [0x96, 0x5a, 0x69, 0x82, 0x9d, 0x1f, 0xb5, 0x9f] },
        FolderId::SavedPicturesLibrary => Guid { data1: 0xe25b5812, data2: 0xbe88, data3: 0x4bd9, data4: [0x94, 0xb0, 0x29, 0x23, 0x34, 0x77, 0xb6, 0xc3] },
        FolderId::RetailDemo => Guid { data1: 0x12d4c69e, data2: 0x24ad, data3: 0x4923, data4: [0xbe, 0x19, 0x31, 0x32, 0x1c, 0x43, 0xa7, 0x67] },
        FolderId::Device => Guid { data1: 0x1c2ac1dc, data2: 0x4358, data3: 0x4b6c, data4: [0x97, 0x33, 0xaf, 0x21, 0x15, 0x65, 0x76, 0xf0] },
        FolderId::DevelopmentFiles => Guid { data1: 0xdbe8e08e, data2: 0x3053, data3: 0x4bbc, data4: [0xb1, 0x83, 0x2a, 0x7b, 0x2b, 0x19, 0x1e, 0x59] },
        FolderId::Objects3D => Guid { data1: 0x31c0dd25, data2: 0x9439, data3: 0x4f12, data4: [0xbf, 0x41, 0x7f, 0xf4, 0xed, 0xa3, 0x87, 0x22] },
        FolderId::AppCaptures => Guid { data1: 0xedc0fe71, data2: 0x98d8, data3: 0x4f4a, data4: [0xb9, 0x20, 0xc8, 0xdc, 0x13, 0x3c, 0xb1, 0x65] },
        FolderId::LocalDocuments => Guid { data1: 0xf42ee2d3, data2: 0x909f, data3: 0x4907, data4: [0x88, 0x71, 0x4c, 0x22, 0xfc, 0x0b, 0xf7, 0x56] },
        FolderId::LocalPictures => Guid { data1: 0x0ddd015d, data2: 0xb06c, data3: 0x45d5, data4: [0x8c, 0x4c, 0xf5, 0x97, 0x13, 0x85, 0x46, 0x39] },
        FolderId::LocalVideos => Guid { data1: 0x35286a68, data2: 0x3c57, data3: 0x41a1, data4: [0xbb, 0xb1, 0x0e, 0xae, 0x73, 0xd7, 0x6c, 0x95] },
        FolderId::LocalMusic => Guid { data1: 0xa0c69a99, data2: 0x21c8, data3: 0x4671, data4: [0x87, 0x03, 0x79, 0x34, 0x16, 0x2f, 0xcf, 0x1d] },
        FolderId::LocalDownloads => Guid { data1: 0x7d83ee9b, data2: 0x2244, data3: 0x4e70, data4: [0xb1, 0xf5, 0x53, 0x93, 0x04, 0x2a, 0xf1, 0xe4] },
        FolderId::RecordedCalls => Guid { data1: 0x2f8b40c2, data2: 0x83ed, data3: 0x48ee, data4: [0xb3, 0x83, 0xa1, 0xf1, 0x57, 0xec, 0x6f, 0x9a] },
        FolderId::AllAppMods => Guid { data1: 0x7ad67899, data2: 0x66af, data3: 0x43ba, data4: [0x91, 0x56, 0x6a, 0xad, 0x42, 0xe6, 0xc5, 0x96] },
        FolderId::CurrentAppMods => Guid { data1: 0x3db40b20, data2: 0x2a30, data3: 0x4dbe, data4: [0x91, 0x7e, 0x77, 0x1d, 0xd2, 0x1d, 0xd0, 0x99] },
        FolderId::AppDataDesktop => Guid { data1: 0xb2c5e279, data2: 0x7add, data3: 0x439f, data4: [0xb2, 0x8c, 0xc4, 0x1f, 0xe1, 0xbb, 0xf6, 0x72] },
        FolderId::AppDataDocuments => Guid { data1: 0x7be16610, data2: 0x1f7f, data3: 0x44ac, data4: [0xbf, 0xf0, 0x83, 0xe1, 0x5f, 0x2f, 0xfc, 0xa1] },
        FolderId::AppDataFavorites => Guid { data1: 0x7cfbefbc, data2: 0xde1f, data3: 0x45aa, data4: [0xb8, 0x43, 0xa5, 0x42, 0xac, 0x53, 0x6c, 0xc9] },
        FolderId::AppDataProgramData => Guid { data1: 0x559d40a3, data2: 0xa036, data3: 0x40fa, data4: [0xaf, 0x61, 0x84, 0xcb, 0x43, 0x0a, 0x4d, 0x34] },
    }
}

/// The position of a catalog entry in the ordered identifier table.
pub open spec fn folder_index(id: FolderId) -> int {
    match id {
        FolderId::NetworkFolder => 0,
        FolderId::ComputerFolder => 1,
        FolderId::InternetFolder => 2,
        FolderId::ControlPanelFolder => 3,
        FolderId::PrintersFolder => 4,
        FolderId::SyncManagerFolder => 5,
        FolderId::SyncSetupFolder => 6,
        FolderId::ConflictFolder => 7,
        FolderId::SyncResultsFolder => 8,
        FolderId::RecycleBinFolder => 9,
        FolderId::ConnectionsFolder => 10,
        FolderId::Fonts => 11,
        FolderId::Desktop => 12,
        FolderId::Startup => 13,
        FolderId::Programs => 14,
        FolderId::StartMenu => 15,
        FolderId::Recent => 16,
        FolderId::SendTo => 17,
        FolderId::Documents => 18,
        FolderId::Favorites => 19,
        FolderId::NetHood => 20,
        FolderId::PrintHood => 21,
        FolderId::Templates => 22,
        FolderId::CommonStartup => 23,
        FolderId::CommonPrograms => 24,
        FolderId::CommonStartMenu => 25,
        FolderId::PublicDesktop => 26,
        FolderId::ProgramData => 27,
        FolderId::CommonTemplates => 28,
        FolderId::PublicDocuments => 29,
        FolderId::RoamingAppData => 30,
        FolderId::LocalAppData => 31,
        FolderId::LocalAppDataLow => 32,
        FolderId::InternetCache => 33,
        FolderId::Cookies => 34,
        FolderId::History => 35,
        FolderId::System => 36,
        FolderId::SystemX86 => 37,
        FolderId::Windows => 38,
        FolderId::Profile => 39,
        FolderId::Pictures => 40,
        FolderId::ProgramFilesX86 => 41,
        FolderId::ProgramFilesCommonX86 => 42,
        FolderId::ProgramFilesX64 => 43,
        FolderId::ProgramFilesCommonX64 => 44,
        FolderId::ProgramFiles => 45,
        FolderId::ProgramFilesCommon => 46,
        FolderId::UserProgramFiles => 47,
        FolderId::UserProgramFilesCommon => 48,
        FolderId::AdminTools => 49,
        FolderId::CommonAdminTools => 50,
        FolderId::Music => 51,
        FolderId::Videos => 52,
        FolderId::Ringtones => 53,
        FolderId::PublicPictures => 54,
        FolderId::PublicMusic => 55,
        FolderId::PublicVideos => 56,
        FolderId::PublicRingtones => 57,
        FolderId::ResourceDir => 58,
        FolderId::LocalizedResourcesDir => 59,
        FolderId::CommonOEMLinks => 60,
        FolderId::CDBurning => 61,
        FolderId::UserProfiles => 62,
        FolderId::Playlists => 63,
        FolderId::SamplePlaylists => 64,
        FolderId::SampleMusic => 65,
        FolderId::SamplePictures => 66,
        FolderId::SampleVideos => 67,
        FolderId::PhotoAlbums => 68,
        FolderId::Public => 69,
        FolderId::ChangeRemovePrograms => 70,
        FolderId::AppUpdates => 71,
        FolderId::AddNewPrograms => 72,
        FolderId::Downloads => 73,
        FolderId::PublicDownloads => 74,
        FolderId::SavedSearches => 75,
        FolderId::QuickLaunch => 76,
        FolderId::Contacts => 77,
        FolderId::SidebarParts => 78,
        FolderId::SidebarDefaultParts => 79,
        FolderId::PublicGameTasks => 80,
        FolderId::GameTasks => 81,
        FolderId::SavedGames => 82,
        FolderId::Games => 83,
        FolderId::SearchMapi => 84,
        FolderId::SearchCsc => 85,
        FolderId::Links => 86,
        FolderId::UsersFiles => 87,
        FolderId::UsersLibraries => 88,
        FolderId::SearchHome => 89,
        FolderId::OriginalImages => 90,
        FolderId::DocumentsLibrary => 91,
        FolderId::MusicLibrary => 92,
        FolderId::PicturesLibrary => 93,
        FolderId::VideosLibrary => 94,
        FolderId::RecordedTVLibrary => 95,
        FolderId::HomeGroup => 96,
        FolderId::HomeGroupCurrentUser => 97,
        FolderId::DeviceMetadataStore => 98,
        FolderId::Libraries => 99,
        FolderId::PublicLibraries => 100,
        FolderId::UserPinned => 101,
        FolderId::ImplicitAppShortcuts => 102,
        FolderId::AccountPictures => 103,
        FolderId::PublicUserTiles => 104,
        FolderId::AppsFolder => 105,
        FolderId::StartMenuAllPrograms => 106,
        FolderId::CommonStartMenuPlaces => 107,
        FolderId::ApplicationShortcuts => 108,
        FolderId::RoamingTiles => 109,
        FolderId::RoamedTileImages => 110,
        FolderId::Screenshots => 111,
        FolderId::CameraRoll => 112,
        FolderId::SkyDrive => 113,
        FolderId::OneDrive => 114,
        FolderId::SkyDriveDocuments => 115,
        FolderId::SkyDrivePictures => 116,
        FolderId::SkyDriveMusic => 117,
        FolderId::SkyDriveCameraRoll => 118,
        FolderId::SearchHistory => 119,
        FolderId::SearchTemplates => 120,
        FolderId::CameraRollLibrary => 121,
        FolderId::SavedPictures => 122,
        FolderId::SavedPicturesLibrary => 123,
        FolderId::RetailDemo => 124,
        FolderId::Device => 125,
        FolderId::DevelopmentFiles => 126,
        FolderId::Objects3D => 127,
        FolderId::AppCaptures => 128,
        FolderId::LocalDocuments => 129,
        FolderId::LocalPictures => 130,
        FolderId::LocalVideos => 131,
        FolderId::LocalMusic => 132,
        FolderId::LocalDownloads => 133,
        FolderId::RecordedCalls => 134,
        FolderId::AllAppMods => 135,
        FolderId::CurrentAppMods => 136,
        FolderId::AppDataDesktop => 137,
        FolderId::AppDataDocuments => 138,
        FolderId::AppDataFavorites => 139,
        FolderId::AppDataProgramData => 140,
    }
}

/// Returns the position of a catalog entry in the ordered identifier table.
pub fn index_of(id: FolderId) -> (i: usize)
    ensures
        i == folder_index(id),
{
    match id {
        FolderId::NetworkFolder => 0,
        FolderId::ComputerFolder => 1,
        FolderId::InternetFolder => 2,
        FolderId::ControlPanelFolder => 3,
        FolderId::PrintersFolder => 4,
        FolderId::SyncManagerFolder => 5,
        FolderId::SyncSetupFolder => 6,
        FolderId::ConflictFolder => 7,
        FolderId::SyncResultsFolder => 8,
        FolderId::RecycleBinFolder => 9,
        FolderId::ConnectionsFolder => 10,
        FolderId::Fonts => 11,
        FolderId::Desktop => 12,
        FolderId::Startup => 13,
        FolderId::Programs => 14,
        FolderId::StartMenu => 15,
        FolderId::Recent => 16,
        FolderId::SendTo => 17,
        FolderId::Documents => 18,
        FolderId::Favorites => 19,
        FolderId::NetHood => 20,
        FolderId::PrintHood => 21,
        FolderId::Templates => 22,
        FolderId::CommonStartup => 23,
        FolderId::CommonPrograms => 24,
        FolderId::CommonStartMenu => 25,
        FolderId::PublicDesktop => 26,
        FolderId::ProgramData => 27,
        FolderId::CommonTemplates => 28,
        FolderId::PublicDocuments => 29,
        FolderId::RoamingAppData => 30,
        FolderId::LocalAppData => 31,
        FolderId::LocalAppDataLow => 32,
        FolderId::InternetCache => 33,
        FolderId::Cookies => 34,
        FolderId::History => 35,
        FolderId::System => 36,
        FolderId::SystemX86 => 37,
        FolderId::Windows => 38,
        FolderId::Profile => 39,
        FolderId::Pictures => 40,
        FolderId::ProgramFilesX86 => 41,
        FolderId::ProgramFilesCommonX86 => 42,
        FolderId::ProgramFilesX64 => 43,
        FolderId::ProgramFilesCommonX64 => 44,
        FolderId::ProgramFiles => 45,
        FolderId::ProgramFilesCommon => 46,
        FolderId::UserProgramFiles => 47,
        FolderId::UserProgramFilesCommon => 48,
        FolderId::AdminTools => 49,
        FolderId::CommonAdminTools => 50,
        FolderId::Music => 51,
        FolderId::Videos => 52,
        FolderId::Ringtones => 53,
        FolderId::PublicPictures => 54,
        FolderId::PublicMusic => 55,
        FolderId::PublicVideos => 56,
        FolderId::PublicRingtones => 57,
        FolderId::ResourceDir => 58,
        FolderId::LocalizedResourcesDir => 59,
        FolderId::CommonOEMLinks => 60,
        FolderId::CDBurning => 61,
        FolderId::UserProfiles => 62,
        FolderId::Playlists => 63,
        FolderId::SamplePlaylists => 64,
        FolderId::SampleMusic => 65,
        FolderId::SamplePictures => 66,
        FolderId::SampleVideos => 67,
        FolderId::PhotoAlbums => 68,
        FolderId::Public => 69,
        FolderId::ChangeRemovePrograms => 70,
        FolderId::AppUpdates => 71,
        FolderId::AddNewPrograms => 72,
        FolderId::Downloads => 73,
        FolderId::PublicDownloads => 74,
        FolderId::SavedSearches => 75,
        FolderId::QuickLaunch => 76,
        FolderId::Contacts => 77,
        FolderId::SidebarParts => 78,
        FolderId::SidebarDefaultParts => 79,
        FolderId::PublicGameTasks => 80,
        FolderId::GameTasks => 81,
        FolderId::SavedGames => 82,
        FolderId::Games => 83,
        FolderId::SearchMapi => 84,
        FolderId::SearchCsc => 85,
        FolderId::Links => 86,
        FolderId::UsersFiles => 87,
        FolderId::UsersLibraries => 88,
        FolderId::SearchHome => 89,
        FolderId::OriginalImages => 90,
        FolderId::DocumentsLibrary => 91,
        FolderId::MusicLibrary => 92,
        FolderId::PicturesLibrary => 93,
        FolderId::VideosLibrary => 94,
        FolderId::RecordedTVLibrary => 95,
        FolderId::HomeGroup => 96,
        FolderId::HomeGroupCurrentUser => 97,
        FolderId::DeviceMetadataStore => 98,
        FolderId::Libraries => 99,
        FolderId::PublicLibraries => 100,
        FolderId::UserPinned => 101,
        FolderId::ImplicitAppShortcuts => 102,
        FolderId::AccountPictures => 103,
        FolderId::PublicUserTiles => 104,
        FolderId::AppsFolder => 105,
        FolderId::StartMenuAllPrograms => 106,
        FolderId::CommonStartMenuPlaces => 107,
        FolderId::ApplicationShortcuts => 108,
        FolderId::RoamingTiles => 109,
        FolderId::RoamedTileImages => 110,
        FolderId::Screenshots => 111,
        FolderId::CameraRoll => 112,
        FolderId::SkyDrive => 113,
        FolderId::OneDrive => 114,
        FolderId::SkyDriveDocuments => 115,
        FolderId::SkyDrivePictures => 116,
        FolderId::SkyDriveMusic => 117,
        FolderId::SkyDriveCameraRoll => 118,
        FolderId::SearchHistory => 119,
        FolderId::SearchTemplates => 120,
        FolderId::CameraRollLibrary => 121,
        FolderId::SavedPictures => 122,
        FolderId::SavedPicturesLibrary => 123,
        FolderId::RetailDemo => 124,
        FolderId::Device => 125,
        FolderId::DevelopmentFiles => 126,
        FolderId::Objects3D => 127,
        FolderId::AppCaptures => 128,
        FolderId::LocalDocuments => 129,
        FolderId::LocalPictures => 130,
        FolderId::LocalVideos => 131,
        FolderId::LocalMusic => 132,
        FolderId::LocalDownloads => 133,
        FolderId::RecordedCalls => 134,
        FolderId::AllAppMods => 135,
        FolderId::CurrentAppMods => 136,
        FolderId::AppDataDesktop => 137,
        FolderId::AppDataDocuments => 138,
        FolderId::AppDataFavorites => 139,
        FolderId::AppDataProgramData => 140,
    }
}

/// The catalog entry at a given position of the identifier table, if any.
pub open spec fn folder_at(i: int) -> Option<FolderId> {
    if i == 0 {
        Some(FolderId::NetworkFolder)
    } else if i == 1 {
        Some(FolderId::ComputerFolder)
    } else if i == 2 {
        Some(FolderId::InternetFolder)
    } else if i == 3 {
        Some(FolderId::ControlPanelFolder)
    } else if i == 4 {
        Some(FolderId::PrintersFolder)
    } else if i == 5 {
        Some(FolderId::SyncManagerFolder)
    } else if i == 6 {
        Some(FolderId::SyncSetupFolder)
    } else if i == 7 {
        Some(FolderId::ConflictFolder)
    } else if i == 8 {
        Some(FolderId::SyncResultsFolder)
    } else if i == 9 {
        Some(FolderId::RecycleBinFolder)
    } else if i == 10 {
        Some(FolderId::ConnectionsFolder)
    } else if i == 11 {
        Some(FolderId::Fonts)
    } else if i == 12 {
        Some(FolderId::Desktop)
    } else if i == 13 {
        Some(FolderId::Startup)
    } else if i == 14 {
        Some(FolderId::Programs)
    } else if i == 15 {
        Some(FolderId::StartMenu)
    } else if i == 16 {
        Some(FolderId::Recent)
    } else if i == 17 {
        Some(FolderId::SendTo)
    } else if i == 18 {
        Some(FolderId::Documents)
    } else if i == 19 {
        Some(FolderId::Favorites)
    } else if i == 20 {
        Some(FolderId::NetHood)
    } else if i == 21 {
        Some(FolderId::PrintHood)
    } else if i == 22 {
        Some(FolderId::Templates)
    } else if i == 23 {
        Some(FolderId::CommonStartup)
    } else if i == 24 {
        Some(FolderId::CommonPrograms)
    } else if i == 25 {
        Some(FolderId::CommonStartMenu)
    } else if i == 26 {
        Some(FolderId::PublicDesktop)
    } else if i == 27 {
        Some(FolderId::ProgramData)
    } else if i == 28 {
        Some(FolderId::CommonTemplates)
    } else if i == 29 {
        Some(FolderId::PublicDocuments)
    } else if i == 30 {
        Some(FolderId::RoamingAppData)
    } else if i == 31 {
        Some(FolderId::LocalAppData)
    } else if i == 32 {
        Some(FolderId::LocalAppDataLow)
    } else if i == 33 {
        Some(FolderId::InternetCache)
    } else if i == 34 {
        Some(FolderId::Cookies)
    } else if i == 35 {
        Some(FolderId::History)
    } else if i == 36 {
        Some(FolderId::System)
    } else if i == 37 {
        Some(FolderId::SystemX86)
    } else if i == 38 {
        Some(FolderId::Windows)
    } else if i == 39 {
        Some(FolderId::Profile)
    } else if i == 40 {
        Some(FolderId::Pictures)
    } else if i == 41 {
        Some(FolderId::ProgramFilesX86)
    } else if i == 42 {
        Some(FolderId::ProgramFilesCommonX86)
    } else if i == 43 {
        Some(FolderId::ProgramFilesX64)
    } else if i == 44 {
        Some(FolderId::ProgramFilesCommonX64)
    } else if i == 45 {
        Some(FolderId::ProgramFiles)
    } else if i == 46 {
        Some(FolderId::ProgramFilesCommon)
    } else if i == 47 {
        Some(FolderId::UserProgramFiles)
    } else if i == 48 {
        Some(FolderId::UserProgramFilesCommon)
    } else if i == 49 {
        Some(FolderId::AdminTools)
    } else if i == 50 {
        Some(FolderId::CommonAdminTools)
    } else if i == 51 {
        Some(FolderId::Music)
    } else if i == 52 {
        Some(FolderId::Videos)
    } else if i == 53 {
        Some(FolderId::Ringtones)
    } else if i == 54 {
        Some(FolderId::PublicPictures)
    } else if i == 55 {
        Some(FolderId::PublicMusic)
    } else if i == 56 {
        Some(FolderId::PublicVideos)
    } else if i == 57 {
        Some(FolderId::PublicRingtones)
    } else if i == 58 {
        Some(FolderId::ResourceDir)
    } else if i == 59 {
        Some(FolderId::LocalizedResourcesDir)
    } else if i == 60 {
        Some(FolderId::CommonOEMLinks)
    } else if i == 61 {
        Some(FolderId::CDBurning)
    } else if i == 62 {
        Some(FolderId::UserProfiles)
    } else if i == 63 {
        Some(FolderId::Playlists)
    } else if i == 64 {
        Some(FolderId::SamplePlaylists)
    } else if i == 65 {
        Some(FolderId::SampleMusic)
    } else if i == 66 {
        Some(FolderId::SamplePictures)
    } else if i == 67 {
        Some(FolderId::SampleVideos)
    } else if i == 68 {
        Some(FolderId::PhotoAlbums)
    } else if i == 69 {
        Some(FolderId::Public)
    } else if i == 70 {
        Some(FolderId::ChangeRemovePrograms)
    } else if i == 71 {
        Some(FolderId::AppUpdates)
    } else if i == 72 {
        Some(FolderId::AddNewPrograms)
    } else if i == 73 {
        Some(FolderId::Downloads)
    } else if i == 74 {
        Some(FolderId::PublicDownloads)
    } else if i == 75 {
        Some(FolderId::SavedSearches)
    } else if i == 76 {
        Some(FolderId::QuickLaunch)
    } else if i == 77 {
        Some(FolderId::Contacts)
    } else if i == 78 {
        Some(FolderId::SidebarParts)
    } else if i == 79 {
        Some(FolderId::SidebarDefaultParts)
    } else if i == 80 {
        Some(FolderId::PublicGameTasks)
    } else if i == 81 {
        Some(FolderId::GameTasks)
    } else if i == 82 {
        Some(FolderId::SavedGames)
    } else if i == 83 {
        Some(FolderId::Games)
    } else if i == 84 {
        Some(FolderId::SearchMapi)
    } else if i == 85 {
        Some(FolderId::SearchCsc)
    } else if i == 86 {
        Some(FolderId::Links)
    } else if i == 87 {
        Some(FolderId::UsersFiles)
    } else if i == 88 {
        Some(FolderId::UsersLibraries)
    } else if i == 89 {
        Some(FolderId::SearchHome)
    } else if i == 90 {
        Some(FolderId::OriginalImages)
    } else if i == 91 {
        Some(FolderId::DocumentsLibrary)
    } else if i == 92 {
        Some(FolderId::MusicLibrary)
    } else if i == 93 {
        Some(FolderId::PicturesLibrary)
    } else if i == 94 {
        Some(FolderId::VideosLibrary)
    } else if i == 95 {
        Some(FolderId::RecordedTVLibrary)
    } else if i == 96 {
        Some(FolderId::HomeGroup)
    } else if i == 97 {
        Some(FolderId::HomeGroupCurrentUser)
    } else if i == 98 {
        Some(FolderId::DeviceMetadataStore)
    } else if i == 99 {
        Some(FolderId::Libraries)
    } else if i == 100 {
        Some(FolderId::PublicLibraries)
    } else if i == 101 {
        Some(FolderId::UserPinned)
    } else if i == 102 {
        Some(FolderId::ImplicitAppShortcuts)
    } else if i == 103 {
        Some(FolderId::AccountPictures)
    } else if i == 104 {
        Some(FolderId::PublicUserTiles)
    } else if i == 105 {
        Some(FolderId::AppsFolder)
    } else if i == 106 {
        Some(FolderId::StartMenuAllPrograms)
    } else if i == 107 {
        Some(FolderId::CommonStartMenuPlaces)
    } else if i == 108 {
        Some(FolderId::ApplicationShortcuts)
    } else if i == 109 {
        Some(FolderId::RoamingTiles)
    } else if i == 110 {
        Some(FolderId::RoamedTileImages)
    } else if i == 111 {
        Some(FolderId::Screenshots)
    } else if i == 112 {
        Some(FolderId::CameraRoll)
    } else if i == 113 {
        Some(FolderId::SkyDrive)
    } else if i == 114 {
        Some(FolderId::OneDrive)
    } else if i == 115 {
        Some(FolderId::SkyDriveDocuments)
    } else if i == 116 {
        Some(FolderId::SkyDrivePictures)
    } else if i == 117 {
        Some(FolderId::SkyDriveMusic)
    } else if i == 118 {
        Some(FolderId::SkyDriveCameraRoll)
    } else if i == 119 {
        Some(FolderId::SearchHistory)
    } else if i == 120 {
        Some(FolderId::SearchTemplates)
    } else if i == 121 {
        Some(FolderId::CameraRollLibrary)
    } else if i == 122 {
        Some(FolderId::SavedPictures)
    } else if i == 123 {
        Some(FolderId::SavedPicturesLibrary)
    } else if i == 124 {
        Some(FolderId::RetailDemo)
    } else if i == 125 {
        Some(FolderId::Device)
    } else if i == 126 {
        Some(FolderId::DevelopmentFiles)
    } else if i == 127 {
        Some(FolderId::Objects3D)
    } else if i == 128 {
        Some(FolderId::AppCaptures)
    } else if i == 129 {
        Some(FolderId::LocalDocuments)
    } else if i == 130 {
        Some(FolderId::LocalPictures)
    } else if i == 131 {
        Some(FolderId::LocalVideos)
    } else if i == 132 {
        Some(FolderId::LocalMusic)
    } else if i == 133 {
        Some(FolderId::LocalDownloads)
    } else if i == 134 {
        Some(FolderId::RecordedCalls)
    } else if i == 135 {
        Some(FolderId::AllAppMods)
    } else if i == 136 {
        Some(FolderId::CurrentAppMods)
    } else if i == 137 {
        Some(FolderId::AppDataDesktop)
    } else if i == 138 {
        Some(FolderId::AppDataDocuments)
    } else if i == 139 {
        Some(FolderId::AppDataFavorites)
    } else if i == 140 {
        Some(FolderId::AppDataProgramData)
    } else {
        None
    }
}

/// Returns the catalog entry at a given position of the identifier table.
pub fn folder_id_from_index(i: usize) -> (r: Option<FolderId>)
    ensures
        r == folder_at(i as int),
{
    if i == 0 {
        Some(FolderId::NetworkFolder)
    } else if i == 1 {
        Some(FolderId::ComputerFolder)
    } else if i == 2 {
        Some(FolderId::InternetFolder)
    } else if i == 3 {
        Some(FolderId::ControlPanelFolder)
    } else if i == 4 {
        Some(FolderId::PrintersFolder)
    } else if i == 5 {
        Some(FolderId::SyncManagerFolder)
    } else if i == 6 {
        Some(FolderId::SyncSetupFolder)
    } else if i == 7 {
        Some(FolderId::ConflictFolder)
    } else if i == 8 {
        Some(FolderId::SyncResultsFolder)
    } else if i == 9 {
        Some(FolderId::RecycleBinFolder)
    } else if i == 10 {
        Some(FolderId::ConnectionsFolder)
    } else if i == 11 {
        Some(FolderId::Fonts)
    } else if i == 12 {
        Some(FolderId::Desktop)
    } else if i == 13 {
        Some(FolderId::Startup)
    } else if i == 14 {
        Some(FolderId::Programs)
    } else if i == 15 {
        Some(FolderId::StartMenu)
    } else if i == 16 {
        Some(FolderId::Recent)
    } else if i == 17 {
        Some(FolderId::SendTo)
    } else if i == 18 {
        Some(FolderId::Documents)
    } else if i == 19 {
        Some(FolderId::Favorites)
    } else if i == 20 {
        Some(FolderId::NetHood)
    } else if i == 21 {
        Some(FolderId::PrintHood)
    } else if i == 22 {
        Some(FolderId::Templates)
    } else if i == 23 {
        Some(FolderId::CommonStartup)
    } else if i == 24 {
        Some(FolderId::CommonPrograms)
    } else if i == 25 {
        Some(FolderId::CommonStartMenu)
    } else if i == 26 {
        Some(FolderId::PublicDesktop)
    } else if i == 27 {
        Some(FolderId::ProgramData)
    } else if i == 28 {
        Some(FolderId::CommonTemplates)
    } else if i == 29 {
        Some(FolderId::PublicDocuments)
    } else if i == 30 {
        Some(FolderId::RoamingAppData)
    } else if i == 31 {
        Some(FolderId::LocalAppData)
    } else if i == 32 {
        Some(FolderId::LocalAppDataLow)
    } else if i == 33 {
        Some(FolderId::InternetCache)
    } else if i == 34 {
        Some(FolderId::Cookies)
    } else if i == 35 {
        Some(FolderId::History)
    } else if i == 36 {
        Some(FolderId::System)
    } else if i == 37 {
        Some(FolderId::SystemX86)
    } else if i == 38 {
        Some(FolderId::Windows)
    } else if i == 39 {
        Some(FolderId::Profile)
    } else if i == 40 {
        Some(FolderId::Pictures)
    } else if i == 41 {
        Some(FolderId::ProgramFilesX86)
    } else if i == 42 {
        Some(FolderId::ProgramFilesCommonX86)
    } else if i == 43 {
        Some(FolderId::ProgramFilesX64)
    } else if i == 44 {
        Some(FolderId::ProgramFilesCommonX64)
    } else if i == 45 {
        Some(FolderId::ProgramFiles)
    } else if i == 46 {
        Some(FolderId::ProgramFilesCommon)
    } else if i == 47 {
        Some(FolderId::UserProgramFiles)
    } else if i == 48 {
        Some(FolderId::UserProgramFilesCommon)
    } else if i == 49 {
        Some(FolderId::AdminTools)
    } else if i == 50 {
        Some(FolderId::CommonAdminTools)
    } else if i == 51 {
        Some(FolderId::Music)
    } else if i == 52 {
        Some(FolderId::Videos)
    } else if i == 53 {
        Some(FolderId::Ringtones)
    } else if i == 54 {
        Some(FolderId::PublicPictures)
    } else if i == 55 {
        Some(FolderId::PublicMusic)
    } else if i == 56 {
        Some(FolderId::PublicVideos)
    } else if i == 57 {
        Some(FolderId::PublicRingtones)
    } else if i == 58 {
        Some(FolderId::ResourceDir)
    } else if i == 59 {
        Some(FolderId::LocalizedResourcesDir)
    } else if i == 60 {
        Some(FolderId::CommonOEMLinks)
    } else if i == 61 {
        Some(FolderId::CDBurning)
    } else if i == 62 {
        Some(FolderId::UserProfiles)
    } else if i == 63 {
        Some(FolderId::Playlists)
    } else if i == 64 {
        Some(FolderId::SamplePlaylists)
    } else if i == 65 {
        Some(FolderId::SampleMusic)
    } else if i == 66 {
        Some(FolderId::SamplePictures)
    } else if i == 67 {
        Some(FolderId::SampleVideos)
    } else if i == 68 {
        Some(FolderId::PhotoAlbums)
    } else if i == 69 {
        Some(FolderId::Public)
    } else if i == 70 {
        Some(FolderId::ChangeRemovePrograms)
    } else if i == 71 {
        Some(FolderId::AppUpdates)
    } else if i == 72 {
        Some(FolderId::AddNewPrograms)
    } else if i == 73 {
        Some(FolderId::Downloads)
    } else if i == 74 {
        Some(FolderId::PublicDownloads)
    } else if i == 75 {
        Some(FolderId::SavedSearches)
    } else if i == 76 {
        Some(FolderId::QuickLaunch)
    } else if i == 77 {
        Some(FolderId::Contacts)
    } else if i == 78 {
        Some(FolderId::SidebarParts)
    } else if i == 79 {
        Some(FolderId::SidebarDefaultParts)
    } else if i == 80 {
        Some(FolderId::PublicGameTasks)
    } else if i == 81 {
        Some(FolderId::GameTasks)
    } else if i == 82 {
        Some(FolderId::SavedGames)
    } else if i == 83 {
        Some(FolderId::Games)
    } else if i == 84 {
        Some(FolderId::SearchMapi)
    } else if i == 85 {
        Some(FolderId::SearchCsc)
    } else if i == 86 {
        Some(FolderId::Links)
    } else if i == 87 {
        Some(FolderId::UsersFiles)
    } else if i == 88 {
        Some(FolderId::UsersLibraries)
    } else if i == 89 {
        Some(FolderId::SearchHome)
    } else if i == 90 {
        Some(FolderId::OriginalImages)
    } else if i == 91 {
        Some(FolderId::DocumentsLibrary)
    } else if i == 92 {
        Some(FolderId::MusicLibrary)
    } else if i == 93 {
        Some(FolderId::PicturesLibrary)
    } else if i == 94 {
        Some(FolderId::VideosLibrary)
    } else if i == 95 {
        Some(FolderId::RecordedTVLibrary)
    } else if i == 96 {
        Some(FolderId::HomeGroup)
    } else if i == 97 {
        Some(FolderId::HomeGroupCurrentUser)
    } else if i == 98 {
        Some(FolderId::DeviceMetadataStore)
    } else if i == 99 {
        Some(FolderId::Libraries)
    } else if i == 100 {
        Some(FolderId::PublicLibraries)
    } else if i == 101 {
        Some(FolderId::UserPinned)
    } else if i == 102 {
        Some(FolderId::ImplicitAppShortcuts)
    } else if i == 103 {
        Some(FolderId::AccountPictures)
    } else if i == 104 {
        Some(FolderId::PublicUserTiles)
    } else if i == 105 {
        Some(FolderId::AppsFolder)
    } else if i == 106 {
        Some(FolderId::StartMenuAllPrograms)
    } else if i == 107 {
        Some(FolderId::CommonStartMenuPlaces)
    } else if i == 108 {
        Some(FolderId::ApplicationShortcuts)
    } else if i == 109 {
        Some(FolderId::RoamingTiles)
    } else if i == 110 {
        Some(FolderId::RoamedTileImages)
    } else if i == 111 {
        Some(FolderId::Screenshots)
    } else if i == 112 {
        Some(FolderId::CameraRoll)
    } else if i == 113 {
        Some(FolderId::SkyDrive)
    } else if i == 114 {
        Some(FolderId::OneDrive)
    } else if i == 115 {
        Some(FolderId::SkyDriveDocuments)
    } else if i == 116 {
        Some(FolderId::SkyDrivePictures)
    } else if i == 117 {
        Some(FolderId::SkyDriveMusic)
    } else if i == 118 {
        Some(FolderId::SkyDriveCameraRoll)
    } else if i == 119 {
        Some(FolderId::SearchHistory)
    } else if i == 120 {
        Some(FolderId::SearchTemplates)
    } else if i == 121 {
        Some(FolderId::CameraRollLibrary)
    } else if i == 122 {
        Some(FolderId::SavedPictures)
    } else if i == 123 {
        Some(FolderId::SavedPicturesLibrary)
    } else if i == 124 {
        Some(FolderId::RetailDemo)
    } else if i == 125 {
        Some(FolderId::Device)
    } else if i == 126 {
        Some(FolderId::DevelopmentFiles)
    } else if i == 127 {
        Some(FolderId::Objects3D)
    } else if i == 128 {
        Some(FolderId::AppCaptures)
    } else if i == 129 {
        Some(FolderId::LocalDocuments)
    } else if i == 130 {
        Some(FolderId::LocalPictures)
    } else if i == 131 {
        Some(FolderId::LocalVideos)
    } else if i == 132 {
        Some(FolderId::LocalMusic)
    } else if i == 133 {
        Some(FolderId::LocalDownloads)
    } else if i == 134 {
        Some(FolderId::RecordedCalls)
    } else if i == 135 {
        Some(FolderId::AllAppMods)
    } else if i == 136 {
        Some(FolderId::CurrentAppMods)
    } else if i == 137 {
        Some(FolderId::AppDataDesktop)
    } else if i == 138 {
        Some(FolderId::AppDataDocuments)
    } else if i == 139 {
        Some(FolderId::AppDataFavorites)
    } else if i == 140 {
        Some(FolderId::AppDataProgramData)
    } else {
        None
    }
}

/// Every catalog entry has a position inside the identifier table.
pub proof fn lemma_folder_index_in_range(id: FolderId)
    ensures
        0 <= folder_index(id) < FOLDER_COUNT,
{
}

/// The table position of a catalog entry leads back to that entry: the
/// enumeration and the identifier table stay in lock-step.
pub proof fn lemma_folder_at_index(id: FolderId)
    ensures
        folder_at(folder_index(id)) == Some(id),
{
}

/// Every position of the identifier table is owned by exactly one catalog
/// entry, whose position it is.
pub proof fn lemma_index_has_folder(i: int)
    requires
        0 <= i < FOLDER_COUNT,
    ensures
        folder_at(i) matches Some(id) && folder_index(id) == i,
{
}

/// Builds the ordered identifier table. Its length equals the number of
/// catalog entries, and the entry at each position carries that folder's
/// platform identifier.
pub fn folder_ids_table() -> (t: Vec<Guid>)
    ensures
        t@.len() == FOLDER_COUNT,
        forall|i: int|
            0 <= i < FOLDER_COUNT ==> (folder_at(i) matches Some(id) && #[trigger] t@[i] == folder_guid(id)),
{
    let mut t: Vec<Guid> = Vec::new();
    let mut i: usize = 0;
    while i < FOLDER_COUNT
        invariant
            i <= FOLDER_COUNT,
            t@.len() == i,
            forall|j: int| 0 <= j < i ==> (folder_at(j) matches Some(id) && #[trigger] t@[j] == folder_guid(id)),
        decreases FOLDER_COUNT - i,
    {
        proof {
            lemma_index_has_folder(i as int);
        }
        match folder_id_from_index(i) {
            Some(id) => {
                t.push(guid_of(id));
            }
            None => {
                vstd::pervasive::unreached::<()>();
            }
        }
        i = i + 1;
    }
    t
}

} // verus!
