//! The texts of the user interface (Korean).

use vstd::prelude::*;
use crate::text::{dec_int, i64_to_string};

verus! {

/// Short name of weekday `i` (Monday = 0 .. Sunday = 6).
pub open spec fn weekday_short_spec(i: int) -> Seq<char> {
    if i == 0 {
        "월"@
    } else if i == 1 {
        "화"@
    } else if i == 2 {
        "수"@
    } else if i == 3 {
        "목"@
    } else if i == 4 {
        "금"@
    } else if i == 5 {
        "토"@
    } else {
        "일"@
    }
}

/// Short name of weekday `i` (Monday = 0 .. Sunday = 6); `i` must be below 7.
pub fn weekday_short(i: usize) -> (s: &'static str)
    requires
        i < 7,
    ensures
        s@ == weekday_short_spec(i as int),
{
    if i == 0 {
        "월"
    } else if i == 1 {
        "화"
    } else if i == 2 {
        "수"
    } else if i == 3 {
        "목"
    } else if i == 4 {
        "금"
    } else if i == 5 {
        "토"
    } else {
        "일"
    }
}

/// Full name of weekday `i` (Monday = 0 .. Sunday = 6).
pub open spec fn weekday_full_spec(i: int) -> Seq<char> {
    if i == 0 {
        "월요일"@
    } else if i == 1 {
        "화요일"@
    } else if i == 2 {
        "수요일"@
    } else if i == 3 {
        "목요일"@
    } else if i == 4 {
        "금요일"@
    } else if i == 5 {
        "토요일"@
    } else {
        "일요일"@
    }
}

/// Full name of weekday `i` (Monday = 0 .. Sunday = 6); `i` must be below 7.
pub fn weekday_full(i: usize) -> (s: &'static str)
    requires
        i < 7,
    ensures
        s@ == weekday_full_spec(i as int),
{
    if i == 0 {
        "월요일"
    } else if i == 1 {
        "화요일"
    } else if i == 2 {
        "수요일"
    } else if i == 3 {
        "목요일"
    } else if i == 4 {
        "금요일"
    } else if i == 5 {
        "토요일"
    } else {
        "일요일"
    }
}

pub const SLOTS_NONE: &'static str = "없음";
pub const FIREWALL_FAIL_SUMMARY_SUFFIX: &'static str = " ⚠️ 방화벽 규칙 적용 실패";
pub const FIREWALL_FAIL_TOOLTIP_SUFFIX: &'static str = "\n⚠️ 방화벽 규칙을 적용하지 못했습니다 (보안 정책/권한 확인)";
pub const ALLOWED_NONE_SUMMARY: &'static str = "인터넷 허용 중 (차단 일정 없음)";
pub const ALLOWED_NONE_TOOLTIP: &'static str = "Kid Internet Lock\n상태: 🟢 허용 중\n차단 일정 없음";
pub const MANUAL_BLOCKED_SUMMARY: &'static str = "인터넷 수동 차단 중";
pub const MANUAL_BLOCKED_TOOLTIP: &'static str = "Kid Internet Lock\n상태: 🔴 수동 차단 중\n(수동 제어 활성)";
pub const MANUAL_ALLOWED_SUMMARY: &'static str = "인터넷 수동 허용 중";
pub const MANUAL_ALLOWED_TOOLTIP: &'static str = "Kid Internet Lock\n상태: 🟢 수동 허용 중\n(수동 제어 활성)";
pub const TRAY_STATUS_BLOCKED: &'static str = "Kid Internet Lock [🔴 인터넷 차단 중]";
pub const TRAY_STATUS_ALLOWED: &'static str = "Kid Internet Lock [🟢 인터넷 허용 중]";
pub const BTN_ALLOW_30: &'static str = "30분 허용";
pub const BTN_ALLOW_60: &'static str = "1시간 허용";
pub const BTN_TEMP_CANCEL: &'static str = "임시 허용 취소";
pub const BTN_TOGGLE: &'static str = "지금 차단 / 차단 해제";
pub const MENU_SETTINGS: &'static str = "관리자 설정(S)...";
pub const MENU_EXIT: &'static str = "종료(X)";
pub const AUTH_TITLE_ADMIN: &'static str = "Kid Internet Lock - 관리자 인증";
pub const AUTH_TITLE_SETTINGS: &'static str = "Kid Internet Lock - 설정 관리자 인증";
pub const AUTH_TITLE_EXIT: &'static str = "Kid Internet Lock - 종료 관리자 인증";
pub const TITLE_SETTINGS: &'static str = "Kid Internet Lock - 관리자 설정";
pub const GRP_SCHEDULE: &'static str = " 🕒 차단 스케줄 (요일별, 시간대 2개) ";
pub const BATCH1_LABEL: &'static str = "일괄 1차:";
pub const BATCH2_LABEL: &'static str = "일괄 2차:";
pub const BTN_COPY_SLOT1: &'static str = "1차 → 전체 요일에 복사";
pub const BTN_COPY_SLOT2: &'static str = "2차 → 전체 요일에 복사";
pub const HDR_DAY: &'static str = "요일";
pub const HDR_SLOT1: &'static str = "1차 차단 (시작 ~ 종료)";
pub const HDR_SLOT2: &'static str = "2차 차단 (시작 ~ 종료, 미사용 시 00:00 ~ 00:00)";
pub const ROW_HINT: &'static str = "차단";
pub const NOTE_SCHEDULE: &'static str = "※ 요일 체크 해제 = 종일 허용 / 시작 = 종료 이면 해당 시간대 사용 안 함 / 자정을 넘기면 다음날 새벽까지 이어짐";
pub const GRP_TEMP: &'static str = " ⚡ 임시 허용 및 수동 제어 ";
pub const GRP_PASSWORD: &'static str = " 🔑 관리자 비밀번호 변경 ";
pub const LBL_CURRENT_PWD: &'static str = "현재 비밀번호:";
pub const LBL_NEW_PWD: &'static str = "새 비밀번호:";
pub const LBL_CONFIRM_PWD: &'static str = "새 비밀번호 확인:";
pub const BTN_CHANGE_PWD: &'static str = "비밀번호 변경";
pub const PWD_ERR_CURRENT: &'static str = "현재 비밀번호가 틀렸습니다.";
pub const PWD_ERR_EMPTY: &'static str = "새 비밀번호를 입력하세요.";
pub const PWD_ERR_MISMATCH: &'static str = "새 비밀번호 확인이 일치하지 않습니다.";
pub const PWD_OK: &'static str = "비밀번호가 변경되었습니다.";
pub const GRP_STARTUP: &'static str = " ⚙️ 시작 프로그램 ";
pub const CHK_AUTOSTART: &'static str = "Windows 로그온 시 백그라운드에서 자동 실행";
pub const BTN_SAVE: &'static str = "설정 저장";
pub const BTN_CLOSE: &'static str = "닫기";
pub const TITLE_SAVED: &'static str = "설정 저장됨";
pub const MSG_SAVED: &'static str = "설정이 저장되었습니다.";
pub const TITLE_INPUT_ERROR: &'static str = "입력 오류";
pub const SLOT1_NAME: &'static str = "1차";
pub const SLOT2_NAME: &'static str = "2차";
pub const PWD_PROMPT_LABEL: &'static str = "관리자 비밀번호를 입력하세요:";
pub const PWD_INCORRECT: &'static str = "비밀번호가 틀렸습니다.";
pub const BTN_OK: &'static str = "확인";
pub const BTN_CANCEL: &'static str = "취소";
pub const TITLE_ADMIN_REQUIRED: &'static str = "관리자 권한 필요";
pub const MSG_ADMIN_REQUIRED: &'static str = "Kid Internet Lock은 Windows 방화벽 제어를 위해 관리자 권한이 필요합니다.\n'관리자 권한으로 실행'을 선택하세요.";
pub const TITLE_NOTICE: &'static str = "알림";
pub const MSG_ALREADY_RUNNING: &'static str = "Kid Internet Lock이 이미 실행 중입니다.\n작업 표시줄 오른쪽 트레이 아이콘을 확인하세요.";
pub const TITLE_ERROR: &'static str = "오류";
pub const VIEWER_TITLE: &'static str = "인터넷 사용 가능 시간";
pub const VIEWER_GROUP: &'static str = " 인터넷 사용 가능 시간 ";
pub const AVAILABLE_ALL_DAY: &'static str = "종일 사용 가능";
pub const BLOCKED_ALL_DAY: &'static str = "종일 차단";
pub const VIEWER_ALL_WEEK_AVAILABLE: &'static str = "인터넷 주간 종일 사용 가능";
pub const VIEWER_ALL_WEEK_BLOCKED: &'static str = "인터넷 주간 종일 차단";
pub const VIEWER_LEGEND_AVAILABLE: &'static str = "사용 가능";
pub const VIEWER_LEGEND_BLOCKED: &'static str = "차단";
pub const VIEWER_LEGEND_NOW: &'static str = "현재";
pub const VIEWER_NOTE: &'static str = "위 시간에 인터넷을 사용할 수 있습니다. 나머지 시간은 차단됩니다.";

/// Status summary while a scheduled block is active.
pub open spec fn blocked_summary_spec(src: Seq<char>, active: Seq<char>, all: Seq<char>, end: Seq<char>) -> Seq<char> {
    src + " "@ + active + " 차단 중 ("@ + all + ") ("@ + end + " 해제)"@
}

/// Status summary while a scheduled block is active.
pub fn blocked_summary(src: &str, active: &str, all: &str, end: &str) -> (s: String)
    ensures
        s@ == blocked_summary_spec(src@, active@, all@, end@),
{
    let mut s = String::new();
    s.append(src);
    s.append(" ");
    s.append(active);
    s.append(" 차단 중 (");
    s.append(all);
    s.append(") (");
    s.append(end);
    s.append(" 해제)");
    s
}

/// Tray tooltip while a scheduled block is active.
pub open spec fn blocked_tooltip_spec(src: Seq<char>, all: Seq<char>, end: Seq<char>) -> Seq<char> {
    "Kid Internet Lock\n상태: 🔴 차단 중 ("@ + src + " "@ + all + ")\n해제: "@ + end
}

/// Tray tooltip while a scheduled block is active.
pub fn blocked_tooltip(src: &str, all: &str, end: &str) -> (s: String)
    ensures
        s@ == blocked_tooltip_spec(src@, all@, end@),
{
    let mut s = String::new();
    s.append("Kid Internet Lock\n상태: 🔴 차단 중 (");
    s.append(src);
    s.append(" ");
    s.append(all);
    s.append(")\n해제: ");
    s.append(end);
    s
}

/// Status summary while allowed, with the next scheduled block.
pub open spec fn allowed_summary_spec(today: Seq<char>, today_slots: Seq<char>, next: Seq<char>, next_slots: Seq<char>) -> Seq<char> {
    "인터넷 허용 중 - "@ + today + " ("@ + today_slots + ") (다음 차단 "@ + next + " "@ + next_slots + ")"@
}

/// Status summary while allowed, with the next scheduled block.
pub fn allowed_summary(today: &str, today_slots: &str, next: &str, next_slots: &str) -> (s: String)
    ensures
        s@ == allowed_summary_spec(today@, today_slots@, next@, next_slots@),
{
    let mut s = String::new();
    s.append("인터넷 허용 중 - ");
    s.append(today);
    s.append(" (");
    s.append(today_slots);
    s.append(") (다음 차단 ");
    s.append(next);
    s.append(" ");
    s.append(next_slots);
    s.append(")");
    s
}

/// Tray tooltip while allowed, with the next scheduled block.
pub open spec fn allowed_tooltip_spec(today: Seq<char>, next: Seq<char>, next_slots: Seq<char>) -> Seq<char> {
    "Kid Internet Lock\n상태: 🟢 허용 중 ("@ + today + ")\n다음 차단: "@ + next + " "@ + next_slots
}

/// Tray tooltip while allowed, with the next scheduled block.
pub fn allowed_tooltip(today: &str, next: &str, next_slots: &str) -> (s: String)
    ensures
        s@ == allowed_tooltip_spec(today@, next@, next_slots@),
{
    let mut s = String::new();
    s.append("Kid Internet Lock\n상태: 🟢 허용 중 (");
    s.append(today);
    s.append(")\n다음 차단: ");
    s.append(next);
    s.append(" ");
    s.append(next_slots);
    s
}

/// Status summary during a temporary allow.
pub open spec fn temp_allow_summary_spec(mins: int) -> Seq<char> {
    "임시 허용 중 (약 "@ + dec_int(mins) + "분 남음)"@
}

/// Status summary during a temporary allow.
pub fn temp_allow_summary(mins: i64) -> (s: String)
    ensures
        s@ == temp_allow_summary_spec(mins as int),
{
    let mut s = String::new();
    s.append("임시 허용 중 (약 ");
    let t = i64_to_string(mins);
    s.append(t.as_str());
    s.append("분 남음)");
    s
}

/// Tray tooltip during a temporary allow.
pub open spec fn temp_allow_tooltip_spec(mins: int, until: Seq<char>) -> Seq<char> {
    "Kid Internet Lock\n상태: 🟢 임시 허용 중\n남은 시간: 약 "@ + dec_int(mins) + "분 ("@ + until + "까지)"@
}

/// Tray tooltip during a temporary allow.
pub fn temp_allow_tooltip(mins: i64, until: &str) -> (s: String)
    ensures
        s@ == temp_allow_tooltip_spec(mins as int, until@),
{
    let mut s = String::new();
    s.append("Kid Internet Lock\n상태: 🟢 임시 허용 중\n남은 시간: 약 ");
    let t = i64_to_string(mins);
    s.append(t.as_str());
    s.append("분 (");
    s.append(until);
    s.append("까지)");
    s
}

/// Title of the password prompt for an action.
pub open spec fn auth_title_spec(action: Seq<char>) -> Seq<char> {
    action + " - 관리자 인증"@
}

/// Title of the password prompt for an action.
pub fn auth_title(action: &str) -> (s: String)
    ensures
        s@ == auth_title_spec(action@),
{
    let mut s = String::new();
    s.append(action);
    s.append(" - 관리자 인증");
    s
}

/// Message when saving the configuration failed.
pub open spec fn save_failed_msg_spec(detail: Seq<char>) -> Seq<char> {
    "저장 실패: "@ + detail
}

/// Message when saving the configuration failed.
pub fn save_failed_msg(detail: &str) -> (s: String)
    ensures
        s@ == save_failed_msg_spec(detail@),
{
    let mut s = String::new();
    s.append("저장 실패: ");
    s.append(detail);
    s
}

/// Input error of a batch slot row.
pub open spec fn batch_error_spec(slot: Seq<char>) -> Seq<char> {
    "일괄 "@ + slot + ": 시 00-23, 분 00-59 로 입력해 주세요."@
}

/// Input error of a batch slot row.
pub fn batch_error(slot: &str) -> (s: String)
    ensures
        s@ == batch_error_spec(slot@),
{
    let mut s = String::new();
    s.append("일괄 ");
    s.append(slot);
    s.append(": 시 00-23, 분 00-59 로 입력해 주세요.");
    s
}

/// Input error of a weekday row.
pub open spec fn weekly_error_spec(day: Seq<char>) -> Seq<char> {
    day + ": 시간은 시 00-23, 분 00-59 로 입력해 주세요. (2차 미사용 시 00:00-00:00)"@
}

/// Input error of a weekday row.
pub fn weekly_error(day: &str) -> (s: String)
    ensures
        s@ == weekly_error_spec(day@),
{
    let mut s = String::new();
    s.append(day);
    s.append(": 시간은 시 00-23, 분 00-59 로 입력해 주세요. (2차 미사용 시 00:00-00:00)");
    s
}

/// Status line of the settings window.
pub open spec fn status_line_spec(summary: Seq<char>) -> Seq<char> {
    "현재 상태: "@ + summary
}

/// Status line of the settings window.
pub fn status_line(summary: &str) -> (s: String)
    ensures
        s@ == status_line_spec(summary@),
{
    let mut s = String::new();
    s.append("현재 상태: ");
    s.append(summary);
    s
}

/// Message when the application stopped with an error.
pub open spec fn err_running_spec(detail: Seq<char>) -> Seq<char> {
    "프로그램 실행 중 오류가 발생했습니다:\n"@ + detail
}

/// Message when the application stopped with an error.
pub fn err_running(detail: &str) -> (s: String)
    ensures
        s@ == err_running_spec(detail@),
{
    let mut s = String::new();
    s.append("프로그램 실행 중 오류가 발생했습니다:\n");
    s.append(detail);
    s
}

/// Viewer headline while the internet is available.
pub open spec fn viewer_available_spec(day: Seq<char>, clock: Seq<char>, until: Seq<char>) -> Seq<char> {
    day + " "@ + clock + " - 현재 사용 가능 ("@ + until + "까지)"@
}

/// Viewer headline while the internet is available.
pub fn viewer_available(day: &str, clock: &str, until: &str) -> (s: String)
    ensures
        s@ == viewer_available_spec(day@, clock@, until@),
{
    let mut s = String::new();
    s.append(day);
    s.append(" ");
    s.append(clock);
    s.append(" - 현재 사용 가능 (");
    s.append(until);
    s.append("까지)");
    s
}

/// Viewer headline while the internet is blocked.
pub open spec fn viewer_blocked_spec(day: Seq<char>, clock: Seq<char>, from: Seq<char>) -> Seq<char> {
    day + " "@ + clock + " - 현재 차단 중 ("@ + from + "부터 사용 가능)"@
}

/// Viewer headline while the internet is blocked.
pub fn viewer_blocked(day: &str, clock: &str, from: &str) -> (s: String)
    ensures
        s@ == viewer_blocked_spec(day@, clock@, from@),
{
    let mut s = String::new();
    s.append(day);
    s.append(" ");
    s.append(clock);
    s.append(" - 현재 차단 중 (");
    s.append(from);
    s.append("부터 사용 가능)");
    s
}

/// Viewer headline naming today.
pub open spec fn viewer_today_title_spec(date: Seq<char>, weekday: Seq<char>) -> Seq<char> {
    "오늘 "@ + date + " "@ + weekday
}

/// Viewer headline naming today.
pub fn viewer_today_title(date: &str, weekday: &str) -> (s: String)
    ensures
        s@ == viewer_today_title_spec(date@, weekday@),
{
    let mut s = String::new();
    s.append("오늘 ");
    s.append(date);
    s.append(" ");
    s.append(weekday);
    s
}

/// Viewer line with today's available ranges.
pub open spec fn viewer_today_ranges_spec(ranges: Seq<char>) -> Seq<char> {
    "오늘 사용 가능: "@ + ranges
}

/// Viewer line with today's available ranges.
pub fn viewer_today_ranges(ranges: &str) -> (s: String)
    ensures
        s@ == viewer_today_ranges_spec(ranges@),
{
    let mut s = String::new();
    s.append("오늘 사용 가능: ");
    s.append(ranges);
    s
}

/// Viewer line with tomorrow's available ranges.
pub open spec fn viewer_tomorrow_spec(day: Seq<char>, ranges: Seq<char>) -> Seq<char> {
    "내일 ("@ + day + "): "@ + ranges
}

/// Viewer line with tomorrow's available ranges.
pub fn viewer_tomorrow(day: &str, ranges: &str) -> (s: String)
    ensures
        s@ == viewer_tomorrow_spec(day@, ranges@),
{
    let mut s = String::new();
    s.append("내일 (");
    s.append(day);
    s.append("): ");
    s.append(ranges);
    s
}

} // verus!
