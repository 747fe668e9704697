//! The addresses under which the interfaces are reached.

use vstd::prelude::*;
use vstd::string::*;

verus! {

/// The method of a request.
#[derive(Debug, Clone, Copy, PartialEq, Eq, Structural)]
pub enum Method {
    Get,
    Post,
}

/// What a request can be for. Everything else is looked for among the files of
/// the web interface.
#[derive(Debug, Clone, Copy, PartialEq, Eq, Structural)]
pub enum Endpoint {
    Status,
    Accounts,
    CliStatus,
    CliInstallHelper,
    CliSwitch,
    CnIdeStatus,
    CnIdeSwitch,
    CnIdeDetect,
    IdeStatus,
    IdeSwitch,
    IdeDetect,
    Delete,
    OauthStart,
    OauthStatus,
    ImportLocal,
    ExportAccounts,
    ExportAccountsToPath,
    PreviewImport,
    Import,
    Switch,
    SwitchProgress,
    Sessions,
    CopySessions,
    CheckinStatus,
    Credits,
    CreditStatistics,
    TokenStatistics,
    Checkin,
    CheckinAll,
    CheckinConfig,
    SaveCheckinConfig,
    CheckinLogs,
    TravelStatus,
    TravelConfig,
    SaveTravelConfig,
    RotateConfig,
    SaveRotateConfig,
    RotateStatus,
    RotateRun,
    RotateLogs,
    RefreshToken,
    UpdateCheck,
    UpdateConfig,
    SaveUpdateConfig,
    ChatCompletions,
    Models,
    ProxyConfig,
    SaveProxyConfig,
}

impl Endpoint {
    pub open spec fn method_of(self) -> Method {
        match self {
            Endpoint::Status
            | Endpoint::Accounts
            | Endpoint::CliStatus
            | Endpoint::CnIdeStatus
            | Endpoint::IdeStatus
            | Endpoint::SwitchProgress
            | Endpoint::Sessions
            | Endpoint::CheckinStatus
            | Endpoint::CreditStatistics
            | Endpoint::TokenStatistics
            | Endpoint::CheckinConfig
            | Endpoint::CheckinLogs
            | Endpoint::TravelStatus
            | Endpoint::TravelConfig
            | Endpoint::RotateConfig
            | Endpoint::RotateStatus
            | Endpoint::RotateLogs
            | Endpoint::UpdateCheck
            | Endpoint::UpdateConfig
            | Endpoint::Models
            | Endpoint::ProxyConfig => Method::Get,
            _ => Method::Post,
        }
    }

    pub open spec fn path_of(self) -> Seq<char> {
        match self {
            Endpoint::Status => "/api/status"@,
            Endpoint::Accounts => "/api/accounts"@,
            Endpoint::CliStatus => "/api/codebuddy-cli/status"@,
            Endpoint::CliInstallHelper => "/api/codebuddy-cli/install-helper"@,
            Endpoint::CliSwitch => "/api/codebuddy-cli/switch"@,
            Endpoint::CnIdeStatus => "/api/codebuddy-cn-ide/status"@,
            Endpoint::CnIdeSwitch => "/api/codebuddy-cn-ide/switch"@,
            Endpoint::CnIdeDetect => "/api/codebuddy-cn-ide/detect"@,
            Endpoint::IdeStatus => "/api/codebuddy-ide/status"@,
            Endpoint::IdeSwitch => "/api/codebuddy-ide/switch"@,
            Endpoint::IdeDetect => "/api/codebuddy-ide/detect"@,
            Endpoint::Delete => "/api/delete"@,
            Endpoint::OauthStart => "/api/oauth/start"@,
            Endpoint::OauthStatus => "/api/oauth/status"@,
            Endpoint::ImportLocal => "/api/import-local"@,
            Endpoint::ExportAccounts => "/api/export-accounts"@,
            Endpoint::ExportAccountsToPath => "/api/export-accounts-to-path"@,
            Endpoint::PreviewImport => "/api/import/preview"@,
            Endpoint::Import => "/api/import"@,
            Endpoint::Switch => "/api/switch"@,
            Endpoint::SwitchProgress => "/api/switch/progress"@,
            Endpoint::Sessions => "/api/sessions"@,
            Endpoint::CopySessions => "/api/sessions/copy"@,
            Endpoint::CheckinStatus => "/api/checkin/status"@,
            Endpoint::Credits => "/api/credits"@,
            Endpoint::CreditStatistics => "/api/credits/stats"@,
            Endpoint::TokenStatistics => "/api/token-stats"@,
            Endpoint::Checkin => "/api/checkin"@,
            Endpoint::CheckinAll => "/api/checkin/all"@,
            Endpoint::CheckinConfig => "/api/checkin/config"@,
            Endpoint::SaveCheckinConfig => "/api/checkin/config"@,
            Endpoint::CheckinLogs => "/api/checkin/logs"@,
            Endpoint::TravelStatus => "/api/travel/status"@,
            Endpoint::TravelConfig => "/api/travel/config"@,
            Endpoint::SaveTravelConfig => "/api/travel/config"@,
            Endpoint::RotateConfig => "/api/rotate/config"@,
            Endpoint::SaveRotateConfig => "/api/rotate/config"@,
            Endpoint::RotateStatus => "/api/rotate/status"@,
            Endpoint::RotateRun => "/api/rotate/run"@,
            Endpoint::RotateLogs => "/api/rotate/logs"@,
            Endpoint::RefreshToken => "/api/refresh-token"@,
            Endpoint::UpdateCheck => "/api/update/check"@,
            Endpoint::UpdateConfig => "/api/update/config"@,
            Endpoint::SaveUpdateConfig => "/api/update/config"@,
            Endpoint::ChatCompletions => "/v1/chat/completions"@,
            Endpoint::Models => "/v1/models"@,
            Endpoint::ProxyConfig => "/api/proxy/config"@,
            Endpoint::SaveProxyConfig => "/api/proxy/config"@,
        }
    }

    /// The method of the requests to the endpoint.
    pub fn method(self) -> (r: Method)
        ensures
            r == self.method_of(),
    {
        match self {
            Endpoint::Status
            | Endpoint::Accounts
            | Endpoint::CliStatus
            | Endpoint::CnIdeStatus
            | Endpoint::IdeStatus
            | Endpoint::SwitchProgress
            | Endpoint::Sessions
            | Endpoint::CheckinStatus
            | Endpoint::CreditStatistics
            | Endpoint::TokenStatistics
            | Endpoint::CheckinConfig
            | Endpoint::CheckinLogs
            | Endpoint::TravelStatus
            | Endpoint::TravelConfig
            | Endpoint::RotateConfig
            | Endpoint::RotateStatus
            | Endpoint::RotateLogs
            | Endpoint::UpdateCheck
            | Endpoint::UpdateConfig
            | Endpoint::Models
            | Endpoint::ProxyConfig => Method::Get,
            _ => Method::Post,
        }
    }

    /// The path of the requests to the endpoint.
    pub fn path(self) -> (r: &'static str)
        ensures
            r@ == self.path_of(),
    {
        match self {
            Endpoint::Status => "/api/status",
            Endpoint::Accounts => "/api/accounts",
            Endpoint::CliStatus => "/api/codebuddy-cli/status",
            Endpoint::CliInstallHelper => "/api/codebuddy-cli/install-helper",
            Endpoint::CliSwitch => "/api/codebuddy-cli/switch",
            Endpoint::CnIdeStatus => "/api/codebuddy-cn-ide/status",
            Endpoint::CnIdeSwitch => "/api/codebuddy-cn-ide/switch",
            Endpoint::CnIdeDetect => "/api/codebuddy-cn-ide/detect",
            Endpoint::IdeStatus => "/api/codebuddy-ide/status",
            Endpoint::IdeSwitch => "/api/codebuddy-ide/switch",
            Endpoint::IdeDetect => "/api/codebuddy-ide/detect",
            Endpoint::Delete => "/api/delete",
            Endpoint::OauthStart => "/api/oauth/start",
            Endpoint::OauthStatus => "/api/oauth/status",
            Endpoint::ImportLocal => "/api/import-local",
            Endpoint::ExportAccounts => "/api/export-accounts",
            Endpoint::ExportAccountsToPath => "/api/export-accounts-to-path",
            Endpoint::PreviewImport => "/api/import/preview",
            Endpoint::Import => "/api/import",
            Endpoint::Switch => "/api/switch",
            Endpoint::SwitchProgress => "/api/switch/progress",
            Endpoint::Sessions => "/api/sessions",
            Endpoint::CopySessions => "/api/sessions/copy",
            Endpoint::CheckinStatus => "/api/checkin/status",
            Endpoint::Credits => "/api/credits",
            Endpoint::CreditStatistics => "/api/credits/stats",
            Endpoint::TokenStatistics => "/api/token-stats",
            Endpoint::Checkin => "/api/checkin",
            Endpoint::CheckinAll => "/api/checkin/all",
            Endpoint::CheckinConfig => "/api/checkin/config",
            Endpoint::SaveCheckinConfig => "/api/checkin/config",
            Endpoint::CheckinLogs => "/api/checkin/logs",
            Endpoint::TravelStatus => "/api/travel/status",
            Endpoint::TravelConfig => "/api/travel/config",
            Endpoint::SaveTravelConfig => "/api/travel/config",
            Endpoint::RotateConfig => "/api/rotate/config",
            Endpoint::SaveRotateConfig => "/api/rotate/config",
            Endpoint::RotateStatus => "/api/rotate/status",
            Endpoint::RotateRun => "/api/rotate/run",
            Endpoint::RotateLogs => "/api/rotate/logs",
            Endpoint::RefreshToken => "/api/refresh-token",
            Endpoint::UpdateCheck => "/api/update/check",
            Endpoint::UpdateConfig => "/api/update/config",
            Endpoint::SaveUpdateConfig => "/api/update/config",
            Endpoint::ChatCompletions => "/v1/chat/completions",
            Endpoint::Models => "/v1/models",
            Endpoint::ProxyConfig => "/api/proxy/config",
            Endpoint::SaveProxyConfig => "/api/proxy/config",
        }
    }
}

/// The paths, spelled out: each starts at the root, and two with one method differ.
proof fn lemma_paths(a: Endpoint, b: Endpoint)
    ensures
        a.path_of().len() > 0,
        a.path_of().first() == '/',
        a.method_of() == b.method_of() && a.path_of() == b.path_of() ==> a == b,
{
    reveal_strlit("/api/status");
    reveal_strlit("/api/accounts");
    reveal_strlit("/api/codebuddy-cli/status");
    reveal_strlit("/api/codebuddy-cli/install-helper");
    reveal_strlit("/api/codebuddy-cli/switch");
    reveal_strlit("/api/codebuddy-cn-ide/status");
    reveal_strlit("/api/codebuddy-cn-ide/switch");
    reveal_strlit("/api/codebuddy-cn-ide/detect");
    reveal_strlit("/api/codebuddy-ide/status");
    reveal_strlit("/api/codebuddy-ide/switch");
    reveal_strlit("/api/codebuddy-ide/detect");
    reveal_strlit("/api/delete");
    reveal_strlit("/api/oauth/start");
    reveal_strlit("/api/oauth/status");
    reveal_strlit("/api/import-local");
    reveal_strlit("/api/export-accounts");
    reveal_strlit("/api/export-accounts-to-path");
    reveal_strlit("/api/import/preview");
    reveal_strlit("/api/import");
    reveal_strlit("/api/switch");
    reveal_strlit("/api/switch/progress");
    reveal_strlit("/api/sessions");
    reveal_strlit("/api/sessions/copy");
    reveal_strlit("/api/checkin/status");
    reveal_strlit("/api/credits");
    reveal_strlit("/api/credits/stats");
    reveal_strlit("/api/token-stats");
    reveal_strlit("/api/checkin");
    reveal_strlit("/api/checkin/all");
    reveal_strlit("/api/checkin/config");
    reveal_strlit("/api/checkin/logs");
    reveal_strlit("/api/travel/status");
    reveal_strlit("/api/travel/config");
    reveal_strlit("/api/rotate/config");
    reveal_strlit("/api/rotate/status");
    reveal_strlit("/api/rotate/run");
    reveal_strlit("/api/rotate/logs");
    reveal_strlit("/api/refresh-token");
    reveal_strlit("/api/update/check");
    reveal_strlit("/api/update/config");
    reveal_strlit("/v1/chat/completions");
    reveal_strlit("/v1/models");
    reveal_strlit("/api/proxy/config");
    let p = a.path_of();
    let q = b.path_of();
    assert(p[0] == '/');
    if a.method_of() == b.method_of() && p == q {
        assert(p.len() == q.len());
        assert(p[1] == q[1]);
        assert(p[5] == q[5]);
        assert(p[6] == q[6]);
        assert(p[12] == q[12]);
        assert(p[13] == q[13]);
        assert(p[15] == q[15]);
        assert(p[19] == q[19]);
        assert(p[22] == q[22]);
    }
}

/// No two endpoints share an address.
pub proof fn law_addresses_differ(a: Endpoint, b: Endpoint)
    requires
        a.method_of() == b.method_of(),
        a.path_of() == b.path_of(),
    ensures
        a == b,
{
    lemma_paths(a, b);
}

/// All endpoints, in the order in which they are set up.
pub open spec fn endpoint_list() -> Seq<Endpoint> {
    seq![
        Endpoint::Status,
        Endpoint::Accounts,
        Endpoint::CliStatus,
        Endpoint::CliInstallHelper,
        Endpoint::CliSwitch,
        Endpoint::CnIdeStatus,
        Endpoint::CnIdeSwitch,
        Endpoint::CnIdeDetect,
        Endpoint::IdeStatus,
        Endpoint::IdeSwitch,
        Endpoint::IdeDetect,
        Endpoint::Delete,
        Endpoint::OauthStart,
        Endpoint::OauthStatus,
        Endpoint::ImportLocal,
        Endpoint::ExportAccounts,
        Endpoint::ExportAccountsToPath,
        Endpoint::PreviewImport,
        Endpoint::Import,
        Endpoint::Switch,
        Endpoint::SwitchProgress,
        Endpoint::Sessions,
        Endpoint::CopySessions,
        Endpoint::CheckinStatus,
        Endpoint::Credits,
        Endpoint::CreditStatistics,
        Endpoint::TokenStatistics,
        Endpoint::Checkin,
        Endpoint::CheckinAll,
        Endpoint::CheckinConfig,
        Endpoint::SaveCheckinConfig,
        Endpoint::CheckinLogs,
        Endpoint::TravelStatus,
        Endpoint::TravelConfig,
        Endpoint::SaveTravelConfig,
        Endpoint::RotateConfig,
        Endpoint::SaveRotateConfig,
        Endpoint::RotateStatus,
        Endpoint::RotateRun,
        Endpoint::RotateLogs,
        Endpoint::RefreshToken,
        Endpoint::UpdateCheck,
        Endpoint::UpdateConfig,
        Endpoint::SaveUpdateConfig,
        Endpoint::ChatCompletions,
        Endpoint::Models,
        Endpoint::ProxyConfig,
        Endpoint::SaveProxyConfig,
    ]
}

/// All endpoints of the management interface together with those of the
/// OpenAI interface.
pub fn endpoints() -> (r: Vec<Endpoint>)
    ensures
        r@ == endpoint_list(),
{
    let r = vec![
        Endpoint::Status,
        Endpoint::Accounts,
        Endpoint::CliStatus,
        Endpoint::CliInstallHelper,
        Endpoint::CliSwitch,
        Endpoint::CnIdeStatus,
        Endpoint::CnIdeSwitch,
        Endpoint::CnIdeDetect,
        Endpoint::IdeStatus,
        Endpoint::IdeSwitch,
        Endpoint::IdeDetect,
        Endpoint::Delete,
        Endpoint::OauthStart,
        Endpoint::OauthStatus,
        Endpoint::ImportLocal,
        Endpoint::ExportAccounts,
        Endpoint::ExportAccountsToPath,
        Endpoint::PreviewImport,
        Endpoint::Import,
        Endpoint::Switch,
        Endpoint::SwitchProgress,
        Endpoint::Sessions,
        Endpoint::CopySessions,
        Endpoint::CheckinStatus,
        Endpoint::Credits,
        Endpoint::CreditStatistics,
        Endpoint::TokenStatistics,
        Endpoint::Checkin,
        Endpoint::CheckinAll,
        Endpoint::CheckinConfig,
        Endpoint::SaveCheckinConfig,
        Endpoint::CheckinLogs,
        Endpoint::TravelStatus,
        Endpoint::TravelConfig,
        Endpoint::SaveTravelConfig,
        Endpoint::RotateConfig,
        Endpoint::SaveRotateConfig,
        Endpoint::RotateStatus,
        Endpoint::RotateRun,
        Endpoint::RotateLogs,
        Endpoint::RefreshToken,
        Endpoint::UpdateCheck,
        Endpoint::UpdateConfig,
        Endpoint::SaveUpdateConfig,
        Endpoint::ChatCompletions,
        Endpoint::Models,
        Endpoint::ProxyConfig,
        Endpoint::SaveProxyConfig,
    ];
    assert(r@ =~= endpoint_list());
    r
}

/// The endpoints of the OpenAI interface alone.
pub fn openai_endpoints() -> (r: Vec<Endpoint>)
    ensures
        r@ == seq![Endpoint::ChatCompletions, Endpoint::Models],
{
    let r = vec![Endpoint::ChatCompletions, Endpoint::Models];
    assert(r@ =~= seq![Endpoint::ChatCompletions, Endpoint::Models]);
    r
}

/// The place of an endpoint in the list.
pub open spec fn place_of(endpoint: Endpoint) -> int {
    match endpoint {
        Endpoint::Status => 0,
        Endpoint::Accounts => 1,
        Endpoint::CliStatus => 2,
        Endpoint::CliInstallHelper => 3,
        Endpoint::CliSwitch => 4,
        Endpoint::CnIdeStatus => 5,
        Endpoint::CnIdeSwitch => 6,
        Endpoint::CnIdeDetect => 7,
        Endpoint::IdeStatus => 8,
        Endpoint::IdeSwitch => 9,
        Endpoint::IdeDetect => 10,
        Endpoint::Delete => 11,
        Endpoint::OauthStart => 12,
        Endpoint::OauthStatus => 13,
        Endpoint::ImportLocal => 14,
        Endpoint::ExportAccounts => 15,
        Endpoint::ExportAccountsToPath => 16,
        Endpoint::PreviewImport => 17,
        Endpoint::Import => 18,
        Endpoint::Switch => 19,
        Endpoint::SwitchProgress => 20,
        Endpoint::Sessions => 21,
        Endpoint::CopySessions => 22,
        Endpoint::CheckinStatus => 23,
        Endpoint::Credits => 24,
        Endpoint::CreditStatistics => 25,
        Endpoint::TokenStatistics => 26,
        Endpoint::Checkin => 27,
        Endpoint::CheckinAll => 28,
        Endpoint::CheckinConfig => 29,
        Endpoint::SaveCheckinConfig => 30,
        Endpoint::CheckinLogs => 31,
        Endpoint::TravelStatus => 32,
        Endpoint::TravelConfig => 33,
        Endpoint::SaveTravelConfig => 34,
        Endpoint::RotateConfig => 35,
        Endpoint::SaveRotateConfig => 36,
        Endpoint::RotateStatus => 37,
        Endpoint::RotateRun => 38,
        Endpoint::RotateLogs => 39,
        Endpoint::RefreshToken => 40,
        Endpoint::UpdateCheck => 41,
        Endpoint::UpdateConfig => 42,
        Endpoint::SaveUpdateConfig => 43,
        Endpoint::ChatCompletions => 44,
        Endpoint::Models => 45,
        Endpoint::ProxyConfig => 46,
        Endpoint::SaveProxyConfig => 47,
    }
}

/// Every endpoint is set up, and none is set up twice.
pub proof fn law_each_endpoint_once(endpoint: Endpoint, i: int)
    ensures
        endpoint_list().contains(endpoint),
        0 <= i < endpoint_list().len() && endpoint_list()[i] == endpoint ==> i == place_of(
            endpoint,
        ),
{
    assert(endpoint_list()[place_of(endpoint)] == endpoint);
}

/// Every path starts at the root.
pub proof fn law_paths_are_absolute(endpoint: Endpoint)
    ensures
        endpoint.path_of().len() > 0,
        endpoint.path_of().first() == '/',
{
    lemma_paths(endpoint, endpoint);
}

/// The table of addresses: a request with this method and this path is for this
/// endpoint, and the endpoint is reached in no other way.
pub proof fn law_table_of_addresses(e: Endpoint)
    ensures
        e.method_of() is Get && e.path_of() == "/api/status"@ <==> e is Status,
        e.method_of() is Get && e.path_of() == "/api/accounts"@ <==> e is Accounts,
        e.method_of() is Get && e.path_of() == "/api/codebuddy-cli/status"@ <==> e is CliStatus,
        e.method_of() is Post && e.path_of()
            == "/api/codebuddy-cli/install-helper"@ <==> e is CliInstallHelper,
        e.method_of() is Post && e.path_of() == "/api/codebuddy-cli/switch"@ <==> e is CliSwitch,
        e.method_of() is Get && e.path_of()
            == "/api/codebuddy-cn-ide/status"@ <==> e is CnIdeStatus,
        e.method_of() is Post && e.path_of()
            == "/api/codebuddy-cn-ide/switch"@ <==> e is CnIdeSwitch,
        e.method_of() is Post && e.path_of()
            == "/api/codebuddy-cn-ide/detect"@ <==> e is CnIdeDetect,
        e.method_of() is Get && e.path_of() == "/api/codebuddy-ide/status"@ <==> e is IdeStatus,
        e.method_of() is Post && e.path_of() == "/api/codebuddy-ide/switch"@ <==> e is IdeSwitch,
        e.method_of() is Post && e.path_of() == "/api/codebuddy-ide/detect"@ <==> e is IdeDetect,
        e.method_of() is Post && e.path_of() == "/api/delete"@ <==> e is Delete,
        e.method_of() is Post && e.path_of() == "/api/oauth/start"@ <==> e is OauthStart,
        e.method_of() is Post && e.path_of() == "/api/oauth/status"@ <==> e is OauthStatus,
        e.method_of() is Post && e.path_of() == "/api/import-local"@ <==> e is ImportLocal,
        e.method_of() is Post && e.path_of() == "/api/export-accounts"@ <==> e is ExportAccounts,
        e.method_of() is Post && e.path_of()
            == "/api/export-accounts-to-path"@ <==> e is ExportAccountsToPath,
        e.method_of() is Post && e.path_of() == "/api/import/preview"@ <==> e is PreviewImport,
        e.method_of() is Post && e.path_of() == "/api/import"@ <==> e is Import,
        e.method_of() is Post && e.path_of() == "/api/switch"@ <==> e is Switch,
        e.method_of() is Get && e.path_of() == "/api/switch/progress"@ <==> e is SwitchProgress,
        e.method_of() is Get && e.path_of() == "/api/sessions"@ <==> e is Sessions,
        e.method_of() is Post && e.path_of() == "/api/sessions/copy"@ <==> e is CopySessions,
        e.method_of() is Get && e.path_of() == "/api/checkin/status"@ <==> e is CheckinStatus,
        e.method_of() is Post && e.path_of() == "/api/credits"@ <==> e is Credits,
        e.method_of() is Get && e.path_of() == "/api/credits/stats"@ <==> e is CreditStatistics,
        e.method_of() is Get && e.path_of() == "/api/token-stats"@ <==> e is TokenStatistics,
        e.method_of() is Post && e.path_of() == "/api/checkin"@ <==> e is Checkin,
        e.method_of() is Post && e.path_of() == "/api/checkin/all"@ <==> e is CheckinAll,
        e.method_of() is Get && e.path_of() == "/api/checkin/config"@ <==> e is CheckinConfig,
        e.method_of() is Post && e.path_of() == "/api/checkin/config"@ <==> e is SaveCheckinConfig,
        e.method_of() is Get && e.path_of() == "/api/checkin/logs"@ <==> e is CheckinLogs,
        e.method_of() is Get && e.path_of() == "/api/travel/status"@ <==> e is TravelStatus,
        e.method_of() is Get && e.path_of() == "/api/travel/config"@ <==> e is TravelConfig,
        e.method_of() is Post && e.path_of() == "/api/travel/config"@ <==> e is SaveTravelConfig,
        e.method_of() is Get && e.path_of() == "/api/rotate/config"@ <==> e is RotateConfig,
        e.method_of() is Post && e.path_of() == "/api/rotate/config"@ <==> e is SaveRotateConfig,
        e.method_of() is Get && e.path_of() == "/api/rotate/status"@ <==> e is RotateStatus,
        e.method_of() is Post && e.path_of() == "/api/rotate/run"@ <==> e is RotateRun,
        e.method_of() is Get && e.path_of() == "/api/rotate/logs"@ <==> e is RotateLogs,
        e.method_of() is Post && e.path_of() == "/api/refresh-token"@ <==> e is RefreshToken,
        e.method_of() is Get && e.path_of() == "/api/update/check"@ <==> e is UpdateCheck,
        e.method_of() is Get && e.path_of() == "/api/update/config"@ <==> e is UpdateConfig,
        e.method_of() is Post && e.path_of() == "/api/update/config"@ <==> e is SaveUpdateConfig,
        e.method_of() is Post && e.path_of() == "/v1/chat/completions"@ <==> e is ChatCompletions,
        e.method_of() is Get && e.path_of() == "/v1/models"@ <==> e is Models,
        e.method_of() is Get && e.path_of() == "/api/proxy/config"@ <==> e is ProxyConfig,
        e.method_of() is Post && e.path_of() == "/api/proxy/config"@ <==> e is SaveProxyConfig,
{
    lemma_paths(e, Endpoint::Status);
    lemma_paths(e, Endpoint::Accounts);
    lemma_paths(e, Endpoint::CliStatus);
    lemma_paths(e, Endpoint::CliInstallHelper);
    lemma_paths(e, Endpoint::CliSwitch);
    lemma_paths(e, Endpoint::CnIdeStatus);
    lemma_paths(e, Endpoint::CnIdeSwitch);
    lemma_paths(e, Endpoint::CnIdeDetect);
    lemma_paths(e, Endpoint::IdeStatus);
    lemma_paths(e, Endpoint::IdeSwitch);
    lemma_paths(e, Endpoint::IdeDetect);
    lemma_paths(e, Endpoint::Delete);
    lemma_paths(e, Endpoint::OauthStart);
    lemma_paths(e, Endpoint::OauthStatus);
    lemma_paths(e, Endpoint::ImportLocal);
    lemma_paths(e, Endpoint::ExportAccounts);
    lemma_paths(e, Endpoint::ExportAccountsToPath);
    lemma_paths(e, Endpoint::PreviewImport);
    lemma_paths(e, Endpoint::Import);
    lemma_paths(e, Endpoint::Switch);
    lemma_paths(e, Endpoint::SwitchProgress);
    lemma_paths(e, Endpoint::Sessions);
    lemma_paths(e, Endpoint::CopySessions);
    lemma_paths(e, Endpoint::CheckinStatus);
    lemma_paths(e, Endpoint::Credits);
    lemma_paths(e, Endpoint::CreditStatistics);
    lemma_paths(e, Endpoint::TokenStatistics);
    lemma_paths(e, Endpoint::Checkin);
    lemma_paths(e, Endpoint::CheckinAll);
    lemma_paths(e, Endpoint::CheckinConfig);
    lemma_paths(e, Endpoint::SaveCheckinConfig);
    lemma_paths(e, Endpoint::CheckinLogs);
    lemma_paths(e, Endpoint::TravelStatus);
    lemma_paths(e, Endpoint::TravelConfig);
    lemma_paths(e, Endpoint::SaveTravelConfig);
    lemma_paths(e, Endpoint::RotateConfig);
    lemma_paths(e, Endpoint::SaveRotateConfig);
    lemma_paths(e, Endpoint::RotateStatus);
    lemma_paths(e, Endpoint::RotateRun);
    lemma_paths(e, Endpoint::RotateLogs);
    lemma_paths(e, Endpoint::RefreshToken);
    lemma_paths(e, Endpoint::UpdateCheck);
    lemma_paths(e, Endpoint::UpdateConfig);
    lemma_paths(e, Endpoint::SaveUpdateConfig);
    lemma_paths(e, Endpoint::ChatCompletions);
    lemma_paths(e, Endpoint::Models);
    lemma_paths(e, Endpoint::ProxyConfig);
    lemma_paths(e, Endpoint::SaveProxyConfig);
}

} // verus!
