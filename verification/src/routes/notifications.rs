//! The notification history pages and the delivery statistics of a user.
use vstd::prelude::*;

use crate::models::NotificationLog;

verus! {

/// A history page request, with optional filters.
#[derive(Debug, Clone, PartialEq, Eq)]
pub struct ListNotificationsQuery {
    pub page: Option<i64>,
    pub per_page: Option<i64>,
    pub notification_type: Option<String>,
    pub destination_type: Option<String>,
    pub status: Option<String>,
}

/// The page asked for: 1 when not given, and at least 1.
pub open spec fn page_of(q: ListNotificationsQuery) -> int {
    let p = match q.page {
        Some(p) => p as int,
        None => 1,
    };
    if p < 1 {
        1
    } else {
        p
    }
}

/// The page size asked for: 20 when not given, and between 1 and 100.
pub open spec fn per_page_of(q: ListNotificationsQuery) -> int {
    let n = match q.per_page {
        Some(n) => n as int,
        None => 20,
    };
    if n < 1 {
        1
    } else if n > 100 {
        100
    } else {
        n
    }
}

impl ListNotificationsQuery {
    /// The page, the page size and the number of entries skipped before the page.
    pub fn paging(&self) -> (r: (i64, i64, i64))
        requires
            (page_of(*self) - 1) * per_page_of(*self) <= i64::MAX,
        ensures
            r.0 == page_of(*self),
            r.1 == per_page_of(*self),
            r.2 == (r.0 - 1) * r.1,
            1 <= r.1 <= 100,
            r.0 >= 1,
            r.2 >= 0,
    {
        let p: i64 = match self.page {
            Some(p) => p,
            None => 1,
        };
        let page: i64 = if p < 1 {
            1
        } else {
            p
        };
        let n: i64 = match self.per_page {
            Some(n) => n,
            None => 20,
        };
        let per_page: i64 = if n < 1 {
            1
        } else if n > 100 {
            100
        } else {
            n
        };
        assert(0 <= (page - 1) * per_page) by (nonlinear_arith)
            requires
                page >= 1,
                per_page >= 1,
        ;
        let offset = (page - 1) * per_page;
        (page, per_page, offset)
    }
}

/// The number of pages that `total` entries fill, `per_page` to a page (the last one
/// possibly part full).
pub fn total_pages(total: i64, per_page: i64) -> (r: i64)
    requires
        0 <= total,
        1 <= per_page <= 100,
    ensures
        r == (total + per_page - 1) / per_page as int,
        r * per_page >= total,
        total > 0 ==> (r - 1) * per_page < total,
        total == 0 ==> r == 0,
{
    let q: i64 = total / per_page;
    let extra: i64 = if total % per_page == 0 {
        0
    } else {
        1
    };
    assert(q <= total) by (nonlinear_arith)
        requires
            0 <= total,
            1 <= per_page,
            q == total / per_page,
    ;
    assert(total % per_page == 0 ==> q * per_page == total) by (nonlinear_arith)
        requires
            0 <= total,
            1 <= per_page,
            q == total / per_page,
    ;
    let r: i64 = if extra == 0 {
        q
    } else {
        assert(q < total) by (nonlinear_arith)
            requires
                0 <= total,
                1 <= per_page,
                q == total / per_page,
                total % per_page != 0,
        ;
        q + 1
    };
    assert(r == (total + per_page - 1) / per_page as int && r * per_page >= total && (total > 0 ==> (
    r - 1) * per_page < total) && (total == 0 ==> r == 0)) by (nonlinear_arith)
        requires
            0 <= total,
            1 <= per_page,
            q == total / per_page,
            r == q + if total % per_page == 0 {
                0int
            } else {
                1int
            },
    ;
    r
}

/// One history entry as the API returns it.
#[derive(Debug, Clone, PartialEq, Eq)]
pub struct NotificationResponse {
    pub id: String,
    pub user_id: String,
    pub notification_type: String,
    pub destination_type: String,
    pub destination_id: String,
    pub content: String,
    pub status: String,
    pub error_message: Option<String>,
    pub created_at: i64,
}

impl From<NotificationLog> for NotificationResponse {
    fn from(n: NotificationLog) -> (r: Self) {
        NotificationResponse {
            id: n.id,
            user_id: n.user_id,
            notification_type: n.notification_type,
            destination_type: n.destination_type,
            destination_id: n.destination_id,
            content: n.content,
            status: n.status,
            error_message: n.error_message,
            created_at: n.created_at,
        }
    }
}

impl vstd::std_specs::convert::FromSpecImpl<NotificationLog> for NotificationResponse {
    open spec fn obeys_from_spec() -> bool {
        true
    }

    open spec fn from_spec(n: NotificationLog) -> Self {
        NotificationResponse {
            id: n.id,
            user_id: n.user_id,
            notification_type: n.notification_type,
            destination_type: n.destination_type,
            destination_id: n.destination_id,
            content: n.content,
            status: n.status,
            error_message: n.error_message,
            created_at: n.created_at,
        }
    }
}

/// A page of history.
#[derive(Debug, Clone, PartialEq, Eq)]
pub struct NotificationsListResponse {
    pub items: Vec<NotificationResponse>,
    pub total: i64,
    pub page: i64,
    pub per_page: i64,
    pub total_pages: i64,
}

/// The answer for one entry.
pub open spec fn entry_answer(n: NotificationLog) -> NotificationResponse {
    NotificationResponse {
        id: n.id,
        user_id: n.user_id,
        notification_type: n.notification_type,
        destination_type: n.destination_type,
        destination_id: n.destination_id,
        content: n.content,
        status: n.status,
        error_message: n.error_message,
        created_at: n.created_at,
    }
}

impl NotificationsListResponse {
    /// A page of history: its entries in order, the total count, and how many pages the
    /// total fills.
    pub fn page_of(entries: &Vec<NotificationLog>, total: i64, page: i64, per_page: i64) -> (r: Self)
        requires
            0 <= total,
            1 <= per_page <= 100,
        ensures
            r.items@.len() == entries@.len(),
            forall|i: int| 0 <= i < entries@.len() ==> #[trigger] r.items@[i] == entry_answer(entries@[i]),
            r.total == total,
            r.page == page,
            r.per_page == per_page,
            r.total_pages == (total + per_page - 1) / per_page as int,
    {
        let mut items: Vec<NotificationResponse> = Vec::new();
        let mut i: usize = 0;
        while i < entries.len()
            invariant
                i <= entries.len(),
                items@.len() == i,
                forall|j: int| 0 <= j < i ==> #[trigger] items@[j] == entry_answer(entries@[j]),
            decreases entries.len() - i,
        {
            let n = &entries[i];
            items.push(
                NotificationResponse {
                    id: n.id.clone(),
                    user_id: n.user_id.clone(),
                    notification_type: n.notification_type.clone(),
                    destination_type: n.destination_type.clone(),
                    destination_id: n.destination_id.clone(),
                    content: n.content.clone(),
                    status: n.status.clone(),
                    error_message: n.error_message.clone(),
                    created_at: n.created_at,
                },
            );
            i = i + 1;
        }
        NotificationsListResponse { items, total, page, per_page, total_pages: total_pages(total, per_page) }
    }
}

/// Delivery statistics: sent and failed counts, and counts per notification kind and per
/// destination kind.
#[derive(Debug, Clone, PartialEq, Eq)]
pub struct NotificationStatsResponse {
    pub total_sent: i64,
    pub total_failed: i64,
    pub by_type: Vec<(String, i64)>,
    pub by_destination: Vec<(String, i64)>,
}

} // verus!
