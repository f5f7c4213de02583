//! The table of known helper and daemon processes, and what it promises:
//! an application name that is also a process name stands for itself.
use vstd::prelude::*;

verus! {

/// How many known helper processes [`APP_TABLE`] lists.
pub const APP_TABLE_LEN: usize = 178;

/// Helper and daemon processes paired with the application they belong to.
pub const APP_TABLE: [(&'static str, &'static str); 178] = [
    // Discord
    ("Discord Helper", "Discord"),
    ("Discord Helper (Renderer)", "Discord"),
    ("Discord Helper (GPU)", "Discord"),
    ("Discord Helper (Plugin)", "Discord"),
    // Slack
    ("Slack Helper", "Slack"),
    ("Slack Helper (Renderer)", "Slack"),
    ("Slack Helper (GPU)", "Slack"),
    ("Slack Helper (Plugin)", "Slack"),
    // Microsoft Teams
    ("Teams Helper", "Microsoft Teams"),
    ("Teams Helper (Renderer)", "Microsoft Teams"),
    ("Teams Helper (GPU)", "Microsoft Teams"),
    ("Microsoft Teams Helper", "Microsoft Teams"),
    ("Microsoft Teams Helper (Renderer)", "Microsoft Teams"),
    ("Microsoft Teams Helper (GPU)", "Microsoft Teams"),
    // Zoom
    ("zoom.us", "Zoom"),
    ("ZoomAudioDevice", "Zoom"),
    ("ZoomOpener", "Zoom"),
    // Google Chrome
    ("Google Chrome Helper", "Google Chrome"),
    ("Google Chrome Helper (Renderer)", "Google Chrome"),
    ("Google Chrome Helper (GPU)", "Google Chrome"),
    ("Google Chrome Helper (Plugin)", "Google Chrome"),
    ("Google Chrome Helper (Alerts)", "Google Chrome"),
    // Chromium
    ("Chromium Helper", "Chromium"),
    ("Chromium Helper (Renderer)", "Chromium"),
    ("Chromium Helper (GPU)", "Chromium"),
    // Mozilla Firefox
    ("firefox", "Firefox"),
    ("plugin-container", "Firefox"),
    ("RDD Process", "Firefox"),
    ("Web Content", "Firefox"),
    // Safari
    ("com.apple.WebKit.WebContent", "Safari"),
    ("com.apple.WebKit.Networking", "Safari"),
    ("com.apple.WebKit.GPU", "Safari"),
    ("SafariServices", "Safari"),
    // Arc Browser
    ("Arc Helper", "Arc"),
    ("Arc Helper (Renderer)", "Arc"),
    ("Arc Helper (GPU)", "Arc"),
    ("Arc Helper (Plugin)", "Arc"),
    // Brave Browser
    ("Brave Browser Helper", "Brave Browser"),
    ("Brave Browser Helper (Renderer)", "Brave Browser"),
    ("Brave Browser Helper (GPU)", "Brave Browser"),
    // Microsoft Edge
    ("Microsoft Edge Helper", "Microsoft Edge"),
    ("Microsoft Edge Helper (Renderer)", "Microsoft Edge"),
    ("Microsoft Edge Helper (GPU)", "Microsoft Edge"),
    // Opera
    ("Opera Helper", "Opera"),
    ("Opera Helper (Renderer)", "Opera"),
    ("Opera Helper (GPU)", "Opera"),
    // Visual Studio Code
    ("Code Helper", "Code"),
    ("Code Helper (Renderer)", "Code"),
    ("Code Helper (GPU)", "Code"),
    ("Code Helper (Plugin)", "Code"),
    // Cursor
    ("Cursor Helper", "Cursor"),
    ("Cursor Helper (Renderer)", "Cursor"),
    ("Cursor Helper (GPU)", "Cursor"),
    ("Cursor Helper (Plugin)", "Cursor"),
    // Windsurf
    ("Windsurf Helper", "Windsurf"),
    ("Windsurf Helper (Renderer)", "Windsurf"),
    ("Windsurf Helper (GPU)", "Windsurf"),
    // Xcode
    ("com.apple.dt.Xcode", "Xcode"),
    ("XCBBuildService", "Xcode"),
    ("IBAgent-x86_64", "Xcode"),
    ("sourcekit-lsp", "Xcode"),
    ("clangd", "Xcode"),
    // JetBrains IDEs
    ("idea", "IntelliJ IDEA"),
    ("idea_c", "IntelliJ IDEA"),
    ("pycharm", "PyCharm"),
    ("pycharm_c", "PyCharm"),
    ("webstorm", "WebStorm"),
    ("webstorm_c", "WebStorm"),
    ("goland", "GoLand"),
    ("goland_c", "GoLand"),
    ("clion", "CLion"),
    ("clion_c", "CLion"),
    ("datagrip", "DataGrip"),
    ("datagrip_c", "DataGrip"),
    ("rider", "Rider"),
    ("rider_c", "Rider"),
    ("rubymine", "RubyMine"),
    // Spotify
    ("Spotify Helper", "Spotify"),
    ("Spotify Helper (Renderer)", "Spotify"),
    ("Spotify Helper (GPU)", "Spotify"),
    ("SpotifyNotificationService", "Spotify"),
    ("SpotifyWebHelper", "Spotify"),
    // Signal
    ("Signal Helper", "Signal"),
    ("Signal Helper (Renderer)", "Signal"),
    ("Signal Helper (GPU)", "Signal"),
    ("Signal Helper (Plugin)", "Signal"),
    // Telegram
    ("Telegram Helper", "Telegram"),
    ("Telegram Helper (Renderer)", "Telegram"),
    ("Telegram Helper (GPU)", "Telegram"),
    // WhatsApp
    ("WhatsApp Helper", "WhatsApp"),
    ("WhatsApp Helper (Renderer)", "WhatsApp"),
    ("WhatsApp Helper (GPU)", "WhatsApp"),
    // Steam
    ("steam_osx", "Steam"),
    ("Steam Helper", "Steam"),
    ("Steam Helper (Renderer)", "Steam"),
    ("Steam Helper (GPU)", "Steam"),
    ("steamwebhelper", "Steam"),
    ("SteamService", "Steam"),
    // Epic Games
    ("EpicGamesLauncher", "Epic Games Launcher"),
    ("EpicWebHelper", "Epic Games Launcher"),
    // Battle.net
    ("Battle.net Helper", "Battle.net"),
    ("Agent.exe", "Battle.net"),
    // 1Password
    ("1Password 7 - Password Manager", "1Password"),
    ("1Password Extension Helper", "1Password"),
    ("1Password Safari", "1Password"),
    ("op", "1Password"),
    // Bitwarden
    ("Bitwarden Helper", "Bitwarden"),
    ("Bitwarden Helper (Renderer)", "Bitwarden"),
    // Dropbox
    ("DropboxHelper", "Dropbox"),
    ("dbcrash", "Dropbox"),
    ("dbfseventsd", "Dropbox"),
    ("dbxosd", "Dropbox"),
    // OneDrive
    ("OneDriveStandaloneUpdater", "OneDrive"),
    ("OneDriveHelper", "OneDrive"),
    // Google Drive
    ("Google Drive File Stream", "Google Drive"),
    ("googledrivesync", "Google Drive"),
    ("GoogleDriveFSHelper", "Google Drive"),
    // iCloud / Apple services
    ("bird", "iCloud"),
    ("cloudd", "iCloud"),
    ("cloudpaird", "iCloud"),
    ("com.apple.iCloudHelper", "iCloud"),
    ("Photos Library Helper", "Photos"),
    // Microsoft Office
    ("Microsoft Word", "Word"),
    ("Microsoft Excel", "Excel"),
    ("Microsoft PowerPoint", "PowerPoint"),
    ("Microsoft Outlook", "Outlook"),
    ("Microsoft OneNote", "OneNote"),
    ("MicrosoftAutoupdate", "Microsoft AutoUpdate"),
    // Notion
    ("Notion Helper", "Notion"),
    ("Notion Helper (Renderer)", "Notion"),
    ("Notion Helper (GPU)", "Notion"),
    // Figma
    ("Figma Helper", "Figma"),
    ("Figma Helper (Renderer)", "Figma"),
    ("Figma Helper (GPU)", "Figma"),
    // Docker
    ("com.docker.backend", "Docker"),
    ("com.docker.vmnetd", "Docker"),
    ("com.docker.hyperkit", "Docker"),
    ("Docker Desktop Helper", "Docker"),
    ("Docker Desktop Helper (Renderer)", "Docker"),
    ("docker", "Docker"),
    ("dockerd", "Docker"),
    ("vpnkit", "Docker"),
    // Terminal emulators
    ("iTerm2", "iTerm2"),
    ("com.googlecode.iterm2", "iTerm2"),
    ("wezterm-gui", "WezTerm"),
    // Alfred / Raycast / Spotlight
    ("com.runningwithcrayons.Alfred", "Alfred"),
    ("Alfred Helper", "Alfred"),
    // OBS Studio
    ("obs", "OBS Studio"),
    ("OBS Helper", "OBS Studio"),
    ("OBS Helper (Renderer)", "OBS Studio"),
    ("OBS Helper (GPU)", "OBS Studio"),
    // VLC
    ("VLC media player", "VLC"),
    ("VLC Helper", "VLC"),
    // Plex
    ("Plex Media Server", "Plex"),
    ("PlexMediaServer", "Plex"),
    ("Plex Helper", "Plex"),
    // Adobe apps
    ("Adobe Photoshop 2024", "Photoshop"),
    ("Adobe Photoshop 2025", "Photoshop"),
    ("Adobe Illustrator 2024", "Illustrator"),
    ("Adobe Illustrator 2025", "Illustrator"),
    ("Adobe Premiere Pro 2024", "Premiere Pro"),
    ("Adobe After Effects 2024", "After Effects"),
    ("Adobe Lightroom", "Lightroom"),
    ("Adobe Acrobat", "Acrobat"),
    // Bartender / system UI helpers
    ("Bartender 4 Helper", "Bartender"),
    ("Bartender 5 Helper", "Bartender"),
    // macOS system processes that are worth naming nicely
    ("WindowServer", "WindowServer"),
    ("kernel_task", "kernel_task"),
    ("launchd", "launchd"),
    ("mds", "Spotlight"),
    ("mds_stores", "Spotlight"),
    ("mdworker_shared", "Spotlight"),
    ("mdworker", "Spotlight"),
    ("com.apple.CoreSimulator.CoreSimulatorService", "Simulator"),
    ("Simulator", "Simulator"),
    ("SimulatorBridge", "Simulator"),
    ("mediaanalysisd", "Media Analysis"),
    ("mediaremoted", "Media Remote"),
];

/// Every position in the table is one of its entries.
proof fn lemma_table_index(j: int)
    requires
        0 <= j < APP_TABLE_LEN,
    ensures
        j == 0 || j == 1 || j == 2 || j == 3 || j == 4 || j == 5 || j == 6 || j == 7 || j == 8 || j == 9 || j == 10 || j == 11 || j == 12 || j == 13 || j == 14 || j == 15 || j == 16 || j == 17 || j == 18 || j == 19 || j == 20 || j == 21 || j == 22 || j == 23 || j == 24 || j == 25 || j == 26 || j == 27 || j == 28 || j == 29 || j == 30 || j == 31 || j == 32 || j == 33 || j == 34 || j == 35 || j == 36 || j == 37 || j == 38 || j == 39 || j == 40 || j == 41 || j == 42 || j == 43 || j == 44 || j == 45 || j == 46 || j == 47 || j == 48 || j == 49 || j == 50 || j == 51 || j == 52 || j == 53 || j == 54 || j == 55 || j == 56 || j == 57 || j == 58 || j == 59 || j == 60 || j == 61 || j == 62 || j == 63 || j == 64 || j == 65 || j == 66 || j == 67 || j == 68 || j == 69 || j == 70 || j == 71 || j == 72 || j == 73 || j == 74 || j == 75 || j == 76 || j == 77 || j == 78 || j == 79 || j == 80 || j == 81 || j == 82 || j == 83 || j == 84 || j == 85 || j == 86 || j == 87 || j == 88 || j == 89 || j == 90 || j == 91 || j == 92 || j == 93 || j == 94 || j == 95 || j == 96 || j == 97 || j == 98 || j == 99 || j == 100 || j == 101 || j == 102 || j == 103 || j == 104 || j == 105 || j == 106 || j == 107 || j == 108 || j == 109 || j == 110 || j == 111 || j == 112 || j == 113 || j == 114 || j == 115 || j == 116 || j == 117 || j == 118 || j == 119 || j == 120 || j == 121 || j == 122 || j == 123 || j == 124 || j == 125 || j == 126 || j == 127 || j == 128 || j == 129 || j == 130 || j == 131 || j == 132 || j == 133 || j == 134 || j == 135 || j == 136 || j == 137 || j == 138 || j == 139 || j == 140 || j == 141 || j == 142 || j == 143 || j == 144 || j == 145 || j == 146 || j == 147 || j == 148 || j == 149 || j == 150 || j == 151 || j == 152 || j == 153 || j == 154 || j == 155 || j == 156 || j == 157 || j == 158 || j == 159 || j == 160 || j == 161 || j == 162 || j == 163 || j == 164 || j == 165 || j == 166 || j == 167 || j == 168 || j == 169 || j == 170 || j == 171 || j == 172 || j == 173 || j == 174 || j == 175 || j == 176 || j == 177,
{
}

/// The length of each process name in the table.
proof fn lemma_process_name_lengths()
    ensures
        APP_TABLE@[0].0@.len() == 14,
        APP_TABLE@[1].0@.len() == 25,
        APP_TABLE@[2].0@.len() == 20,
        APP_TABLE@[3].0@.len() == 23,
        APP_TABLE@[4].0@.len() == 12,
        APP_TABLE@[5].0@.len() == 23,
        APP_TABLE@[6].0@.len() == 18,
        APP_TABLE@[7].0@.len() == 21,
        APP_TABLE@[8].0@.len() == 12,
        APP_TABLE@[9].0@.len() == 23,
        APP_TABLE@[10].0@.len() == 18,
        APP_TABLE@[11].0@.len() == 22,
        APP_TABLE@[12].0@.len() == 33,
        APP_TABLE@[13].0@.len() == 28,
        APP_TABLE@[14].0@.len() == 7,
        APP_TABLE@[15].0@.len() == 15,
        APP_TABLE@[16].0@.len() == 10,
        APP_TABLE@[17].0@.len() == 20,
        APP_TABLE@[18].0@.len() == 31,
        APP_TABLE@[19].0@.len() == 26,
        APP_TABLE@[20].0@.len() == 29,
        APP_TABLE@[21].0@.len() == 29,
        APP_TABLE@[22].0@.len() == 15,
        APP_TABLE@[23].0@.len() == 26,
        APP_TABLE@[24].0@.len() == 21,
        APP_TABLE@[25].0@.len() == 7,
        APP_TABLE@[26].0@.len() == 16,
        APP_TABLE@[27].0@.len() == 11,
        APP_TABLE@[28].0@.len() == 11,
        APP_TABLE@[29].0@.len() == 27,
        APP_TABLE@[30].0@.len() == 27,
        APP_TABLE@[31].0@.len() == 20,
        APP_TABLE@[32].0@.len() == 14,
        APP_TABLE@[33].0@.len() == 10,
        APP_TABLE@[34].0@.len() == 21,
        APP_TABLE@[35].0@.len() == 16,
        APP_TABLE@[36].0@.len() == 19,
        APP_TABLE@[37].0@.len() == 20,
        APP_TABLE@[38].0@.len() == 31,
        APP_TABLE@[39].0@.len() == 26,
        APP_TABLE@[40].0@.len() == 21,
        APP_TABLE@[41].0@.len() == 32,
        APP_TABLE@[42].0@.len() == 27,
        APP_TABLE@[43].0@.len() == 12,
        APP_TABLE@[44].0@.len() == 23,
        APP_TABLE@[45].0@.len() == 18,
        APP_TABLE@[46].0@.len() == 11,
        APP_TABLE@[47].0@.len() == 22,
        APP_TABLE@[48].0@.len() == 17,
        APP_TABLE@[49].0@.len() == 20,
        APP_TABLE@[50].0@.len() == 13,
        APP_TABLE@[51].0@.len() == 24,
        APP_TABLE@[52].0@.len() == 19,
        APP_TABLE@[53].0@.len() == 22,
        APP_TABLE@[54].0@.len() == 15,
        APP_TABLE@[55].0@.len() == 26,
        APP_TABLE@[56].0@.len() == 21,
        APP_TABLE@[57].0@.len() == 18,
        APP_TABLE@[58].0@.len() == 15,
        APP_TABLE@[59].0@.len() == 14,
        APP_TABLE@[60].0@.len() == 13,
        APP_TABLE@[61].0@.len() == 6,
        APP_TABLE@[62].0@.len() == 4,
        APP_TABLE@[63].0@.len() == 6,
        APP_TABLE@[64].0@.len() == 7,
        APP_TABLE@[65].0@.len() == 9,
        APP_TABLE@[66].0@.len() == 8,
        APP_TABLE@[67].0@.len() == 10,
        APP_TABLE@[68].0@.len() == 6,
        APP_TABLE@[69].0@.len() == 8,
        APP_TABLE@[70].0@.len() == 5,
        APP_TABLE@[71].0@.len() == 7,
        APP_TABLE@[72].0@.len() == 8,
        APP_TABLE@[73].0@.len() == 10,
        APP_TABLE@[74].0@.len() == 5,
        APP_TABLE@[75].0@.len() == 7,
        APP_TABLE@[76].0@.len() == 8,
        APP_TABLE@[77].0@.len() == 14,
        APP_TABLE@[78].0@.len() == 25,
        APP_TABLE@[79].0@.len() == 20,
        APP_TABLE@[80].0@.len() == 26,
        APP_TABLE@[81].0@.len() == 16,
        APP_TABLE@[82].0@.len() == 13,
        APP_TABLE@[83].0@.len() == 24,
        APP_TABLE@[84].0@.len() == 19,
        APP_TABLE@[85].0@.len() == 22,
        APP_TABLE@[86].0@.len() == 15,
        APP_TABLE@[87].0@.len() == 26,
        APP_TABLE@[88].0@.len() == 21,
        APP_TABLE@[89].0@.len() == 15,
        APP_TABLE@[90].0@.len() == 26,
        APP_TABLE@[91].0@.len() == 21,
        APP_TABLE@[92].0@.len() == 9,
        APP_TABLE@[93].0@.len() == 12,
        APP_TABLE@[94].0@.len() == 23,
        APP_TABLE@[95].0@.len() == 18,
        APP_TABLE@[96].0@.len() == 14,
        APP_TABLE@[97].0@.len() == 12,
        APP_TABLE@[98].0@.len() == 17,
        APP_TABLE@[99].0@.len() == 13,
        APP_TABLE@[100].0@.len() == 17,
        APP_TABLE@[101].0@.len() == 9,
        APP_TABLE@[102].0@.len() == 30,
        APP_TABLE@[103].0@.len() == 26,
        APP_TABLE@[104].0@.len() == 16,
        APP_TABLE@[105].0@.len() == 2,
        APP_TABLE@[106].0@.len() == 16,
        APP_TABLE@[107].0@.len() == 27,
        APP_TABLE@[108].0@.len() == 13,
        APP_TABLE@[109].0@.len() == 7,
        APP_TABLE@[110].0@.len() == 11,
        APP_TABLE@[111].0@.len() == 6,
        APP_TABLE@[112].0@.len() == 25,
        APP_TABLE@[113].0@.len() == 14,
        APP_TABLE@[114].0@.len() == 24,
        APP_TABLE@[115].0@.len() == 15,
        APP_TABLE@[116].0@.len() == 19,
        APP_TABLE@[117].0@.len() == 4,
        APP_TABLE@[118].0@.len() == 6,
        APP_TABLE@[119].0@.len() == 10,
        APP_TABLE@[120].0@.len() == 22,
        APP_TABLE@[121].0@.len() == 21,
        APP_TABLE@[122].0@.len() == 14,
        APP_TABLE@[123].0@.len() == 15,
        APP_TABLE@[124].0@.len() == 20,
        APP_TABLE@[125].0@.len() == 17,
        APP_TABLE@[126].0@.len() == 17,
        APP_TABLE@[127].0@.len() == 19,
        APP_TABLE@[128].0@.len() == 13,
        APP_TABLE@[129].0@.len() == 24,
        APP_TABLE@[130].0@.len() == 19,
        APP_TABLE@[131].0@.len() == 12,
        APP_TABLE@[132].0@.len() == 23,
        APP_TABLE@[133].0@.len() == 18,
        APP_TABLE@[134].0@.len() == 18,
        APP_TABLE@[135].0@.len() == 17,
        APP_TABLE@[136].0@.len() == 19,
        APP_TABLE@[137].0@.len() == 21,
        APP_TABLE@[138].0@.len() == 32,
        APP_TABLE@[139].0@.len() == 6,
        APP_TABLE@[140].0@.len() == 7,
        APP_TABLE@[141].0@.len() == 6,
        APP_TABLE@[142].0@.len() == 6,
        APP_TABLE@[143].0@.len() == 21,
        APP_TABLE@[144].0@.len() == 11,
        APP_TABLE@[145].0@.len() == 29,
        APP_TABLE@[146].0@.len() == 13,
        APP_TABLE@[147].0@.len() == 3,
        APP_TABLE@[148].0@.len() == 10,
        APP_TABLE@[149].0@.len() == 21,
        APP_TABLE@[150].0@.len() == 16,
        APP_TABLE@[151].0@.len() == 16,
        APP_TABLE@[152].0@.len() == 10,
        APP_TABLE@[153].0@.len() == 17,
        APP_TABLE@[154].0@.len() == 15,
        APP_TABLE@[155].0@.len() == 11,
        APP_TABLE@[156].0@.len() == 20,
        APP_TABLE@[157].0@.len() == 20,
        APP_TABLE@[158].0@.len() == 22,
        APP_TABLE@[159].0@.len() == 22,
        APP_TABLE@[160].0@.len() == 23,
        APP_TABLE@[161].0@.len() == 24,
        APP_TABLE@[162].0@.len() == 15,
        APP_TABLE@[163].0@.len() == 13,
        APP_TABLE@[164].0@.len() == 18,
        APP_TABLE@[165].0@.len() == 18,
        APP_TABLE@[166].0@.len() == 12,
        APP_TABLE@[167].0@.len() == 11,
        APP_TABLE@[168].0@.len() == 7,
        APP_TABLE@[169].0@.len() == 3,
        APP_TABLE@[170].0@.len() == 10,
        APP_TABLE@[171].0@.len() == 15,
        APP_TABLE@[172].0@.len() == 8,
        APP_TABLE@[173].0@.len() == 44,
        APP_TABLE@[174].0@.len() == 9,
        APP_TABLE@[175].0@.len() == 15,
        APP_TABLE@[176].0@.len() == 14,
        APP_TABLE@[177].0@.len() == 12,
{
    reveal_strlit("Discord Helper");
    reveal_strlit("Discord Helper (Renderer)");
    reveal_strlit("Discord Helper (GPU)");
    reveal_strlit("Discord Helper (Plugin)");
    reveal_strlit("Slack Helper");
    reveal_strlit("Slack Helper (Renderer)");
    reveal_strlit("Slack Helper (GPU)");
    reveal_strlit("Slack Helper (Plugin)");
    reveal_strlit("Teams Helper");
    reveal_strlit("Teams Helper (Renderer)");
    reveal_strlit("Teams Helper (GPU)");
    reveal_strlit("Microsoft Teams Helper");
    reveal_strlit("Microsoft Teams Helper (Renderer)");
    reveal_strlit("Microsoft Teams Helper (GPU)");
    reveal_strlit("zoom.us");
    reveal_strlit("ZoomAudioDevice");
    reveal_strlit("ZoomOpener");
    reveal_strlit("Google Chrome Helper");
    reveal_strlit("Google Chrome Helper (Renderer)");
    reveal_strlit("Google Chrome Helper (GPU)");
    reveal_strlit("Google Chrome Helper (Plugin)");
    reveal_strlit("Google Chrome Helper (Alerts)");
    reveal_strlit("Chromium Helper");
    reveal_strlit("Chromium Helper (Renderer)");
    reveal_strlit("Chromium Helper (GPU)");
    reveal_strlit("firefox");
    reveal_strlit("plugin-container");
    reveal_strlit("RDD Process");
    reveal_strlit("Web Content");
    reveal_strlit("com.apple.WebKit.WebContent");
    reveal_strlit("com.apple.WebKit.Networking");
    reveal_strlit("com.apple.WebKit.GPU");
    reveal_strlit("SafariServices");
    reveal_strlit("Arc Helper");
    reveal_strlit("Arc Helper (Renderer)");
    reveal_strlit("Arc Helper (GPU)");
    reveal_strlit("Arc Helper (Plugin)");
    reveal_strlit("Brave Browser Helper");
    reveal_strlit("Brave Browser Helper (Renderer)");
    reveal_strlit("Brave Browser Helper (GPU)");
    reveal_strlit("Microsoft Edge Helper");
    reveal_strlit("Microsoft Edge Helper (Renderer)");
    reveal_strlit("Microsoft Edge Helper (GPU)");
    reveal_strlit("Opera Helper");
    reveal_strlit("Opera Helper (Renderer)");
    reveal_strlit("Opera Helper (GPU)");
    reveal_strlit("Code Helper");
    reveal_strlit("Code Helper (Renderer)");
    reveal_strlit("Code Helper (GPU)");
    reveal_strlit("Code Helper (Plugin)");
    reveal_strlit("Cursor Helper");
    reveal_strlit("Cursor Helper (Renderer)");
    reveal_strlit("Cursor Helper (GPU)");
    reveal_strlit("Cursor Helper (Plugin)");
    reveal_strlit("Windsurf Helper");
    reveal_strlit("Windsurf Helper (Renderer)");
    reveal_strlit("Windsurf Helper (GPU)");
    reveal_strlit("com.apple.dt.Xcode");
    reveal_strlit("XCBBuildService");
    reveal_strlit("IBAgent-x86_64");
    reveal_strlit("sourcekit-lsp");
    reveal_strlit("clangd");
    reveal_strlit("idea");
    reveal_strlit("idea_c");
    reveal_strlit("pycharm");
    reveal_strlit("pycharm_c");
    reveal_strlit("webstorm");
    reveal_strlit("webstorm_c");
    reveal_strlit("goland");
    reveal_strlit("goland_c");
    reveal_strlit("clion");
    reveal_strlit("clion_c");
    reveal_strlit("datagrip");
    reveal_strlit("datagrip_c");
    reveal_strlit("rider");
    reveal_strlit("rider_c");
    reveal_strlit("rubymine");
    reveal_strlit("Spotify Helper");
    reveal_strlit("Spotify Helper (Renderer)");
    reveal_strlit("Spotify Helper (GPU)");
    reveal_strlit("SpotifyNotificationService");
    reveal_strlit("SpotifyWebHelper");
    reveal_strlit("Signal Helper");
    reveal_strlit("Signal Helper (Renderer)");
    reveal_strlit("Signal Helper (GPU)");
    reveal_strlit("Signal Helper (Plugin)");
    reveal_strlit("Telegram Helper");
    reveal_strlit("Telegram Helper (Renderer)");
    reveal_strlit("Telegram Helper (GPU)");
    reveal_strlit("WhatsApp Helper");
    reveal_strlit("WhatsApp Helper (Renderer)");
    reveal_strlit("WhatsApp Helper (GPU)");
    reveal_strlit("steam_osx");
    reveal_strlit("Steam Helper");
    reveal_strlit("Steam Helper (Renderer)");
    reveal_strlit("Steam Helper (GPU)");
    reveal_strlit("steamwebhelper");
    reveal_strlit("SteamService");
    reveal_strlit("EpicGamesLauncher");
    reveal_strlit("EpicWebHelper");
    reveal_strlit("Battle.net Helper");
    reveal_strlit("Agent.exe");
    reveal_strlit("1Password 7 - Password Manager");
    reveal_strlit("1Password Extension Helper");
    reveal_strlit("1Password Safari");
    reveal_strlit("op");
    reveal_strlit("Bitwarden Helper");
    reveal_strlit("Bitwarden Helper (Renderer)");
    reveal_strlit("DropboxHelper");
    reveal_strlit("dbcrash");
    reveal_strlit("dbfseventsd");
    reveal_strlit("dbxosd");
    reveal_strlit("OneDriveStandaloneUpdater");
    reveal_strlit("OneDriveHelper");
    reveal_strlit("Google Drive File Stream");
    reveal_strlit("googledrivesync");
    reveal_strlit("GoogleDriveFSHelper");
    reveal_strlit("bird");
    reveal_strlit("cloudd");
    reveal_strlit("cloudpaird");
    reveal_strlit("com.apple.iCloudHelper");
    reveal_strlit("Photos Library Helper");
    reveal_strlit("Microsoft Word");
    reveal_strlit("Microsoft Excel");
    reveal_strlit("Microsoft PowerPoint");
    reveal_strlit("Microsoft Outlook");
    reveal_strlit("Microsoft OneNote");
    reveal_strlit("MicrosoftAutoupdate");
    reveal_strlit("Notion Helper");
    reveal_strlit("Notion Helper (Renderer)");
    reveal_strlit("Notion Helper (GPU)");
    reveal_strlit("Figma Helper");
    reveal_strlit("Figma Helper (Renderer)");
    reveal_strlit("Figma Helper (GPU)");
    reveal_strlit("com.docker.backend");
    reveal_strlit("com.docker.vmnetd");
    reveal_strlit("com.docker.hyperkit");
    reveal_strlit("Docker Desktop Helper");
    reveal_strlit("Docker Desktop Helper (Renderer)");
    reveal_strlit("docker");
    reveal_strlit("dockerd");
    reveal_strlit("vpnkit");
    reveal_strlit("iTerm2");
    reveal_strlit("com.googlecode.iterm2");
    reveal_strlit("wezterm-gui");
    reveal_strlit("com.runningwithcrayons.Alfred");
    reveal_strlit("Alfred Helper");
    reveal_strlit("obs");
    reveal_strlit("OBS Helper");
    reveal_strlit("OBS Helper (Renderer)");
    reveal_strlit("OBS Helper (GPU)");
    reveal_strlit("VLC media player");
    reveal_strlit("VLC Helper");
    reveal_strlit("Plex Media Server");
    reveal_strlit("PlexMediaServer");
    reveal_strlit("Plex Helper");
    reveal_strlit("Adobe Photoshop 2024");
    reveal_strlit("Adobe Photoshop 2025");
    reveal_strlit("Adobe Illustrator 2024");
    reveal_strlit("Adobe Illustrator 2025");
    reveal_strlit("Adobe Premiere Pro 2024");
    reveal_strlit("Adobe After Effects 2024");
    reveal_strlit("Adobe Lightroom");
    reveal_strlit("Adobe Acrobat");
    reveal_strlit("Bartender 4 Helper");
    reveal_strlit("Bartender 5 Helper");
    reveal_strlit("WindowServer");
    reveal_strlit("kernel_task");
    reveal_strlit("launchd");
    reveal_strlit("mds");
    reveal_strlit("mds_stores");
    reveal_strlit("mdworker_shared");
    reveal_strlit("mdworker");
    reveal_strlit("com.apple.CoreSimulator.CoreSimulatorService");
    reveal_strlit("Simulator");
    reveal_strlit("SimulatorBridge");
    reveal_strlit("mediaanalysisd");
    reveal_strlit("mediaremoted");
}

/// The application names that are spelled exactly like one of the process
/// names of the table.
pub open spec fn named_like_its_process(name: Seq<char>) -> bool {
    name == "Simulator"@
        || name == "WindowServer"@
        || name == "iTerm2"@
        || name == "kernel_task"@
        || name == "launchd"@
}

/// Whenever the application name of one entry is the process name of
/// another, that entry names the same application, and the name is one of
/// those spelled like their process: looking an application name up again
/// gives the name back.
#[verifier::rlimit(100)]
#[verifier::spinoff_prover]
pub proof fn lemma_app_names_canonical()
    ensures
        forall|i: int, j: int|
            0 <= i < APP_TABLE_LEN && 0 <= j < APP_TABLE_LEN && (#[trigger] APP_TABLE@[j]).0@
                == (#[trigger] APP_TABLE@[i]).1@ ==> APP_TABLE@[j].1@ == APP_TABLE@[i].1@
                && named_like_its_process(APP_TABLE@[i].1@),
{
    lemma_process_name_lengths();
    reveal_strlit("1Password");
    reveal_strlit("Acrobat");
    reveal_strlit("Adobe Acrobat");
    reveal_strlit("Adobe Lightroom");
    reveal_strlit("Adobe Photoshop 2024");
    reveal_strlit("Adobe Photoshop 2025");
    reveal_strlit("After Effects");
    reveal_strlit("Agent.exe");
    reveal_strlit("Alfred");
    reveal_strlit("Alfred Helper");
    reveal_strlit("Arc");
    reveal_strlit("Arc Helper");
    reveal_strlit("Arc Helper (Plugin)");
    reveal_strlit("Bartender");
    reveal_strlit("Battle.net");
    reveal_strlit("Bitwarden");
    reveal_strlit("Brave Browser");
    reveal_strlit("Brave Browser Helper");
    reveal_strlit("CLion");
    reveal_strlit("Chromium");
    reveal_strlit("Chromium Helper");
    reveal_strlit("Code");
    reveal_strlit("Code Helper");
    reveal_strlit("Code Helper (Plugin)");
    reveal_strlit("Cursor");
    reveal_strlit("Cursor Helper");
    reveal_strlit("Cursor Helper (GPU)");
    reveal_strlit("DataGrip");
    reveal_strlit("Discord");
    reveal_strlit("Discord Helper");
    reveal_strlit("Discord Helper (GPU)");
    reveal_strlit("Docker");
    reveal_strlit("Dropbox");
    reveal_strlit("DropboxHelper");
    reveal_strlit("Epic Games Launcher");
    reveal_strlit("EpicWebHelper");
    reveal_strlit("Excel");
    reveal_strlit("Figma");
    reveal_strlit("Figma Helper");
    reveal_strlit("Firefox");
    reveal_strlit("GoLand");
    reveal_strlit("Google Chrome");
    reveal_strlit("Google Chrome Helper");
    reveal_strlit("Google Drive");
    reveal_strlit("GoogleDriveFSHelper");
    reveal_strlit("IBAgent-x86_64");
    reveal_strlit("Illustrator");
    reveal_strlit("IntelliJ IDEA");
    reveal_strlit("Lightroom");
    reveal_strlit("Media Analysis");
    reveal_strlit("Media Remote");
    reveal_strlit("Microsoft AutoUpdate");
    reveal_strlit("Microsoft Edge");
    reveal_strlit("Microsoft Excel");
    reveal_strlit("Microsoft PowerPoint");
    reveal_strlit("Microsoft Teams");
    reveal_strlit("Microsoft Word");
    reveal_strlit("MicrosoftAutoupdate");
    reveal_strlit("Notion");
    reveal_strlit("Notion Helper");
    reveal_strlit("Notion Helper (GPU)");
    reveal_strlit("OBS Helper");
    reveal_strlit("OBS Studio");
    reveal_strlit("OneDrive");
    reveal_strlit("OneDriveHelper");
    reveal_strlit("OneNote");
    reveal_strlit("Opera");
    reveal_strlit("Opera Helper");
    reveal_strlit("Outlook");
    reveal_strlit("Photos");
    reveal_strlit("Photoshop");
    reveal_strlit("Plex");
    reveal_strlit("Plex Helper");
    reveal_strlit("PlexMediaServer");
    reveal_strlit("PowerPoint");
    reveal_strlit("Premiere Pro");
    reveal_strlit("PyCharm");
    reveal_strlit("RDD Process");
    reveal_strlit("Rider");
    reveal_strlit("RubyMine");
    reveal_strlit("Safari");
    reveal_strlit("SafariServices");
    reveal_strlit("Signal");
    reveal_strlit("Signal Helper");
    reveal_strlit("Signal Helper (GPU)");
    reveal_strlit("Simulator");
    reveal_strlit("SimulatorBridge");
    reveal_strlit("Slack");
    reveal_strlit("Slack Helper");
    reveal_strlit("Spotify");
    reveal_strlit("Spotify Helper");
    reveal_strlit("Spotify Helper (GPU)");
    reveal_strlit("Spotlight");
    reveal_strlit("Steam");
    reveal_strlit("Steam Helper");
    reveal_strlit("SteamService");
    reveal_strlit("Teams Helper");
    reveal_strlit("Telegram");
    reveal_strlit("Telegram Helper");
    reveal_strlit("VLC");
    reveal_strlit("VLC Helper");
    reveal_strlit("Web Content");
    reveal_strlit("WebStorm");
    reveal_strlit("WezTerm");
    reveal_strlit("WhatsApp");
    reveal_strlit("WhatsApp Helper");
    reveal_strlit("WindowServer");
    reveal_strlit("Windsurf");
    reveal_strlit("Windsurf Helper");
    reveal_strlit("Word");
    reveal_strlit("XCBBuildService");
    reveal_strlit("Xcode");
    reveal_strlit("Zoom");
    reveal_strlit("ZoomAudioDevice");
    reveal_strlit("ZoomOpener");
    reveal_strlit("bird");
    reveal_strlit("clangd");
    reveal_strlit("clion");
    reveal_strlit("clion_c");
    reveal_strlit("cloudd");
    reveal_strlit("cloudpaird");
    reveal_strlit("com.apple.WebKit.GPU");
    reveal_strlit("com.docker.hyperkit");
    reveal_strlit("datagrip");
    reveal_strlit("datagrip_c");
    reveal_strlit("dbcrash");
    reveal_strlit("dbfseventsd");
    reveal_strlit("dbxosd");
    reveal_strlit("docker");
    reveal_strlit("dockerd");
    reveal_strlit("firefox");
    reveal_strlit("goland");
    reveal_strlit("goland_c");
    reveal_strlit("googledrivesync");
    reveal_strlit("iCloud");
    reveal_strlit("iTerm2");
    reveal_strlit("idea");
    reveal_strlit("idea_c");
    reveal_strlit("kernel_task");
    reveal_strlit("launchd");
    reveal_strlit("mds");
    reveal_strlit("mds_stores");
    reveal_strlit("mdworker");
    reveal_strlit("mdworker_shared");
    reveal_strlit("mediaanalysisd");
    reveal_strlit("mediaremoted");
    reveal_strlit("obs");
    reveal_strlit("pycharm");
    reveal_strlit("pycharm_c");
    reveal_strlit("rider");
    reveal_strlit("rider_c");
    reveal_strlit("rubymine");
    reveal_strlit("sourcekit-lsp");
    reveal_strlit("steam_osx");
    reveal_strlit("steamwebhelper");
    reveal_strlit("vpnkit");
    reveal_strlit("webstorm");
    reveal_strlit("webstorm_c");
    reveal_strlit("wezterm-gui");
    reveal_strlit("zoom.us");
    assert forall|i: int, j: int|
        0 <= i < APP_TABLE_LEN && 0 <= j < APP_TABLE_LEN && (#[trigger] APP_TABLE@[j]).0@
            == (#[trigger] APP_TABLE@[i]).1@ implies APP_TABLE@[j].1@ == APP_TABLE@[i].1@
            && named_like_its_process(APP_TABLE@[i].1@) by {
        lemma_table_index(i);
        lemma_table_index(j);
        let a = APP_TABLE@[j].0@;
        let b = APP_TABLE@[i].1@;
        assert(a.len() == b.len());
        assert(a[0] == b[0] && a[1] == b[1] && a[2] == b[2] && a[3] == b[3] && a[4] == b[4] && a[5] == b[5] && a[6] == b[6] && a[7] == b[7] && a[8] == b[8] && a[9] == b[9] && a[10] == b[10] && a[11] == b[11] && a[12] == b[12] && a[13] == b[13] && a[14] == b[14] && a[15] == b[15] && a[16] == b[16] && a[17] == b[17] && a[18] == b[18] && a[19] == b[19]);
    }
}

} // verus!
