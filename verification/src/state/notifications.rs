//! Notifications shown to the user (errors, warnings, successes, information),
//! either persistent or dismissed after a delay.
use vstd::prelude::*;
use crate::error_handling::{AppError, ErrorType};

verus! {

/// Kind of notification.
#[derive(Debug, Clone, Copy, PartialEq, Eq, Structural)]
pub enum NotificationType {
    Error,
    Warning,
    Success,
    Info,
}

/// Specifies `Clone::clone` for `Duration`, which is `Copy`: the clone is the same duration.
pub assume_specification[ <std::time::Duration as Clone>::clone ](d: &std::time::Duration) -> (r: std::time::Duration)
    ensures
        r == *d,
;

/// Names what `Duration::from_secs` returns for a number of seconds.
pub uninterp spec fn secs_duration(secs: u64) -> std::time::Duration;

/// Names what `Duration::as_nanos` returns: the whole length of a duration in
/// nanoseconds. Durations compare as their lengths in nanoseconds do.
pub uninterp spec fn nanos_of(d: std::time::Duration) -> u128;

/// Wraps `Duration::from_secs`: the duration of `secs` whole seconds, which is
/// `secs * 1_000_000_000` nanoseconds long.
#[verifier::external_body]
pub(crate) fn duration_from_secs(secs: u64) -> (d: std::time::Duration)
    ensures
        d == secs_duration(secs),
        nanos_of(d) == secs as int * 1_000_000_000,
{
    std::time::Duration::from_secs(secs)
}

/// Wraps `Duration::as_nanos`: the length of `d` in nanoseconds.
#[verifier::external_body]
pub(crate) fn duration_nanos(d: &std::time::Duration) -> (n: u128)
    ensures
        n == nanos_of(*d),
{
    d.as_nanos()
}

/// Wraps `Instant::elapsed`: the time passed since `since`. It depends on the clock,
/// so nothing is stated of it.
#[verifier::external_body]
pub(crate) fn elapsed_since(since: &std::time::Instant) -> std::time::Duration {
    since.elapsed()
}

/// A notification with delay `delay` is due for dismissal once `elapsed` has passed
/// since it was made: when the elapsed time is at least the delay. A persistent one
/// (no delay) is never due.
pub open spec fn dismiss_due(delay: Option<std::time::Duration>, elapsed: std::time::Duration) -> bool {
    match delay {
        Some(d) => nanos_of(elapsed) >= nanos_of(d),
        None => false,
    }
}

/// Whether each notification of `list` is due, given the time elapsed since each was made.
pub open spec fn due_flags(list: Seq<Notification>, elapsed: Seq<std::time::Duration>) -> Seq<bool> {
    Seq::new(list.len(), |i: int| dismiss_due(list[i].auto_dismiss_duration, elapsed[i]))
}

/// A notification.
#[derive(Debug)]
pub struct Notification {
    /// Identifier.
    pub id: usize,
    /// Main message.
    pub message: String,
    /// Optional details.
    pub details: Option<String>,
    /// Kind.
    pub notification_type: NotificationType,
    /// When it was made.
    pub created_at: std::time::Instant,
    /// Delay after which it is dismissed; `None` keeps it until removed.
    pub auto_dismiss_duration: Option<std::time::Duration>,
    /// Where it came from, when known.
    pub source: Option<String>,
}

/// The texts of an optional string.
pub open spec fn opt_view(o: Option<String>) -> Option<Seq<char>> {
    match o {
        Some(s) => Some(s@),
        None => None,
    }
}

/// Two notifications with the same identifier, texts, kind, time and delay.
pub open spec fn same_notification(a: Notification, b: Notification) -> bool {
    &&& a.id == b.id
    &&& a.message@ == b.message@
    &&& opt_view(a.details) == opt_view(b.details)
    &&& a.notification_type == b.notification_type
    &&& a.created_at == b.created_at
    &&& a.auto_dismiss_duration == b.auto_dismiss_duration
    &&& opt_view(a.source) == opt_view(b.source)
}

/// A copy of an optional string.
fn clone_opt(o: &Option<String>) -> (r: Option<String>)
    ensures
        opt_view(r) == opt_view(*o),
{
    match o {
        Some(s) => Some(s.clone()),
        None => None,
    }
}

impl Clone for Notification {
    /// A copy with the same identifier, texts, kind, time and delay.
    fn clone(&self) -> (c: Self)
        ensures
            same_notification(c, *self),
    {
        Notification {
            id: self.id,
            message: self.message.clone(),
            details: clone_opt(&self.details),
            notification_type: self.notification_type,
            created_at: self.created_at.clone(),
            auto_dismiss_duration: match &self.auto_dismiss_duration {
                Some(d) => Some(d.clone()),
                None => None,
            },
            source: clone_opt(&self.source),
        }
    }
}

/// Kind of notification that an error category is shown as.
pub open spec fn notification_type_of(t: ErrorType) -> NotificationType {
    match t {
        ErrorType::Network | ErrorType::Api | ErrorType::Configuration => NotificationType::Error,
        ErrorType::Validation | ErrorType::Parse | ErrorType::Unknown => NotificationType::Warning,
    }
}

impl Notification {
    /// A persistent notification made now, with no details and no source.
    pub fn new(id: usize, message: String, notification_type: NotificationType) -> (n: Self)
        ensures
            n.id == id,
            n.message == message,
            n.details is None,
            n.notification_type == notification_type,
            n.auto_dismiss_duration is None,
            n.source is None,
    {
        Notification {
            id,
            message,
            details: None,
            notification_type,
            created_at: crate::error_handling::instant_now(),
            auto_dismiss_duration: None,
            source: None,
        }
    }

    /// The same notification with details.
    pub fn with_details(self, details: String) -> (n: Self)
        ensures
            n == (Notification { details: Some(details), ..self }),
    {
        Notification { details: Some(details), ..self }
    }

    /// The same notification, dismissed once `duration` has passed.
    pub fn with_auto_dismiss(self, duration: std::time::Duration) -> (n: Self)
        ensures
            n == (Notification { auto_dismiss_duration: Some(duration), ..self }),
    {
        Notification { auto_dismiss_duration: Some(duration), ..self }
    }

    /// The same notification with a source.
    pub fn with_source(self, source: String) -> (n: Self)
        ensures
            n == (Notification { source: Some(source), ..self }),
    {
        Notification { source: Some(source), ..self }
    }

    /// Whether the notification is due for dismissal once `elapsed` has passed since it
    /// was made (see `dismiss_due`).
    pub fn expired_after(&self, elapsed: std::time::Duration) -> (b: bool)
        ensures
            b == dismiss_due(self.auto_dismiss_duration, elapsed),
    {
        match &self.auto_dismiss_duration {
            Some(d) => duration_nanos(&elapsed) >= duration_nanos(d),
            None => false,
        }
    }

    /// Whether the notification's delay has passed, reading the clock: the rule of
    /// `expired_after` applied to the time elapsed since it was made. A persistent one
    /// never expires; one whose delay is zero always has.
    pub fn should_auto_dismiss(&self) -> (b: bool)
        ensures
            exists|e: std::time::Duration| b == dismiss_due(self.auto_dismiss_duration, e),
            self.auto_dismiss_duration is None ==> !b,
            self.auto_dismiss_duration matches Some(d) && nanos_of(d) == 0 ==> b,
    {
        let e = elapsed_since(&self.created_at);
        let b = self.expired_after(e);
        assert(b == dismiss_due(self.auto_dismiss_duration, e));
        b
    }

    /// A persistent notification for an error: its message is the user message, its
    /// details the technical message when that differs, and it keeps the error's
    /// time and source.
    pub fn from_error(id: usize, error: AppError) -> (n: Self)
        ensures
            n.id == id,
            n.message@ == error.user_message@,
            error.technical_message@ != error.user_message@ ==> (n.details matches Some(d) && d@
                == error.technical_message@),
            error.technical_message@ == error.user_message@ ==> n.details is None,
            n.notification_type == notification_type_of(error.error_type),
            n.created_at == error.timestamp,
            n.auto_dismiss_duration is None,
            n.source == error.source,
    {
        let notification_type = match error.error_type {
            ErrorType::Network | ErrorType::Api => NotificationType::Error,
            ErrorType::Validation => NotificationType::Warning,
            ErrorType::Parse => NotificationType::Warning,
            ErrorType::Configuration => NotificationType::Error,
            ErrorType::Unknown => NotificationType::Warning,
        };
        let same = error.technical_message == error.user_message;
        let details = if !same { Some(error.technical_message) } else { None };
        Notification {
            id,
            message: error.user_message,
            details,
            notification_type,
            created_at: error.timestamp,
            auto_dismiss_duration: None,
            source: error.source,
        }
    }
}

/// Notifications that `update` found expired, and those it keeps.
pub open spec fn kept_after(list: Seq<Notification>, expired: Seq<bool>) -> Seq<Notification>
    decreases list.len(),
{
    if list.len() == 0 || expired.len() != list.len() {
        list
    } else {
        let rest = kept_after(list.drop_last(), expired.drop_last());
        if expired.last() { rest } else { rest.push(list.last()) }
    }
}

/// Identifiers of the notifications flagged as expired, in order.
pub open spec fn expired_ids(list: Seq<Notification>, expired: Seq<bool>) -> Seq<usize>
    decreases list.len(),
{
    if list.len() == 0 || expired.len() != list.len() {
        Seq::empty()
    } else {
        let rest = expired_ids(list.drop_last(), expired.drop_last());
        if expired.last() { rest.push(list.last().id) } else { rest }
    }
}

/// Abstract state of the notification manager.
pub struct NotificationsView {
    /// Notifications, oldest first.
    pub list: Seq<Notification>,
    /// Identifier handed to the next notification that arrives with identifier 0.
    pub next_id: usize,
    /// How many notifications are kept at most.
    pub max: usize,
}

/// State after adding `n`: an identifier 0 is replaced by the counter, which then
/// advances; the oldest notification leaves when the list is full; `n` goes last.
pub open spec fn after_add(v: NotificationsView, n: Notification) -> NotificationsView {
    let n2 = if n.id == 0 { Notification { id: v.next_id, ..n } } else { n };
    let next_id = if n.id == 0 { (v.next_id + 1) as usize } else { v.next_id };
    let list = if v.list.len() >= v.max { v.list.drop_first() } else { v.list };
    NotificationsView { list: list.push(n2), next_id, max: v.max }
}

/// The counter hands out distinct identifiers: a notification added with identifier 0
/// gets the counter's value and the counter moves on, so two such notifications added
/// one after the other get different identifiers.
pub proof fn law_counter_ids_distinct(v: NotificationsView, a: Notification, b: Notification)
    requires
        a.id == 0,
        b.id == 0,
        v.next_id + 1 < usize::MAX,
    ensures
        after_add(v, a).list.last().id == v.next_id,
        after_add(after_add(v, a), b).list.last().id == v.next_id + 1,
        after_add(after_add(v, a), b).next_id == v.next_id + 2,
{
}

/// The counter never goes back, and every identifier it hands out is its value at the
/// time, which it then passes: identifiers made by the counter are all distinct.
pub proof fn law_counter_moves_forward(v: NotificationsView, n: Notification)
    requires
        n.id == 0 ==> v.next_id < usize::MAX,
    ensures
        after_add(v, n).next_id >= v.next_id,
        n.id == 0 ==> after_add(v, n).list.last().id == v.next_id && after_add(v, n).next_id == v.next_id + 1,
{
}

/// Clearing expired notifications keeps every persistent one and drops every one whose
/// delay is zero, whatever the clock reads; what is kept and what is dropped make up
/// the whole list.
pub proof fn law_expiry_rule(list: Seq<Notification>, elapsed: Seq<std::time::Duration>)
    requires
        elapsed.len() == list.len(),
    ensures
        forall|i: int| 0 <= i < list.len() && list[i].auto_dismiss_duration is None
            ==> !#[trigger] due_flags(list, elapsed)[i],
        forall|i: int| 0 <= i < list.len() && (list[i].auto_dismiss_duration matches Some(d) && nanos_of(d) == 0)
            ==> #[trigger] due_flags(list, elapsed)[i],
        kept_after(list, due_flags(list, elapsed)).len() + expired_ids(list, due_flags(list, elapsed)).len() == list.len(),
{
    lemma_kept_and_expired_len(list, due_flags(list, elapsed));
}

/// What is kept and what is dropped together have the length of the list.
pub proof fn lemma_kept_and_expired_len(list: Seq<Notification>, flags: Seq<bool>)
    requires
        flags.len() == list.len(),
    ensures
        kept_after(list, flags).len() + expired_ids(list, flags).len() == list.len(),
    decreases list.len(),
{
    if list.len() > 0 {
        lemma_kept_and_expired_len(list.drop_last(), flags.drop_last());
    }
}

/// Manager of the notifications on screen.
#[derive(Debug)]
pub struct NotificationManager {
    notifications: Vec<Notification>,
    next_id: usize,
    max_notifications: usize,
}

impl View for NotificationManager {
    type V = NotificationsView;

    closed spec fn view(&self) -> NotificationsView {
        NotificationsView {
            list: self.notifications@,
            next_id: self.next_id,
            max: self.max_notifications,
        }
    }
}

impl NotificationManager {
    /// The manager never holds more notifications than its limit.
    #[verifier::type_invariant]
    closed spec fn within_limit(&self) -> bool {
        self.notifications@.len() <= self.max_notifications
    }

    /// An empty manager that keeps at most five notifications.
    pub fn new() -> (m: Self)
        ensures
            m@.list.len() == 0,
            m@.next_id == 0,
            m@.max == 5,
    {
        NotificationManager { notifications: Vec::new(), next_id: 0, max_notifications: 5 }
    }

    /// An empty manager that keeps at most `max` notifications.
    pub fn with_max_notifications(max: usize) -> (m: Self)
        ensures
            m@.list.len() == 0,
            m@.next_id == 0,
            m@.max == max,
    {
        NotificationManager { notifications: Vec::new(), next_id: 0, max_notifications: max }
    }

    /// Adds a notification; see `after_add`.
    pub fn add(&mut self, notification: Notification)
        requires
            old(self)@.max > 0,
            notification.id == 0 ==> old(self)@.next_id < usize::MAX,
        ensures
            final(self)@ == after_add(old(self)@, notification),
            final(self)@.list.len() <= final(self)@.max,
    {
        proof { use_type_invariant(&*self); }
        let mut notification = notification;
        if notification.id == 0 {
            notification.id = self.next_id;
            self.next_id = self.next_id + 1;
        }
        let mut list: Vec<Notification> = Vec::new();
        std::mem::swap(&mut list, &mut self.notifications);
        if list.len() >= self.max_notifications {
            list.remove(0);
        }
        list.push(notification);
        self.notifications = list;
        proof {
            let v = old(self)@;
            assert(self@.list =~= after_add(v, notification).list);
        }
    }

    /// Removes every notification with identifier `id`.
    pub fn remove(&mut self, id: usize)
        ensures
            final(self)@.list == old(self)@.list.filter(|n: Notification| n.id != id),
            final(self)@.next_id == old(self)@.next_id,
            final(self)@.max == old(self)@.max,
    {
        let mut flags: Vec<bool> = Vec::new();
        let mut i: usize = 0;
        while i < self.notifications.len()
            invariant
                i <= self.notifications@.len(),
                flags@.len() == i,
                forall|j: int| 0 <= j < i ==> flags@[j] == (self.notifications@[j].id == id),
            decreases self.notifications@.len() - i,
        {
            flags.push(self.notifications[i].id == id);
            i = i + 1;
        }
        proof {
            lemma_kept_after_filter(self.notifications@, flags@, |n: Notification| n.id != id);
        }
        let _ = self.drop_flagged(&flags);
    }

    /// Removes the notification at `index`, if there is one.
    pub fn remove_by_index(&mut self, index: usize)
        ensures
            final(self)@.list == if index < old(self)@.list.len() {
                old(self)@.list.remove(index as int)
            } else {
                old(self)@.list
            },
            final(self)@.next_id == old(self)@.next_id,
            final(self)@.max == old(self)@.max,
    {
        proof { use_type_invariant(&*self); }
        if index < self.notifications.len() {
            let mut list: Vec<Notification> = Vec::new();
            std::mem::swap(&mut list, &mut self.notifications);
            list.remove(index);
            self.notifications = list;
        }
    }

    /// Removes every notification.
    pub fn clear(&mut self)
        ensures
            final(self)@.list.len() == 0,
            final(self)@.next_id == old(self)@.next_id,
            final(self)@.max == old(self)@.max,
    {
        self.notifications = Vec::new();
    }

    /// Removes every notification of the given kind.
    pub fn clear_by_type(&mut self, notification_type: NotificationType)
        ensures
            final(self)@.list == old(self)@.list.filter(
                |n: Notification| n.notification_type != notification_type,
            ),
            final(self)@.next_id == old(self)@.next_id,
            final(self)@.max == old(self)@.max,
    {
        let mut flags: Vec<bool> = Vec::new();
        let mut i: usize = 0;
        while i < self.notifications.len()
            invariant
                i <= self.notifications@.len(),
                flags@.len() == i,
                forall|j: int|
                    0 <= j < i ==> flags@[j] == (self.notifications@[j].notification_type
                        == notification_type),
            decreases self.notifications@.len() - i,
        {
            flags.push(self.notifications[i].notification_type == notification_type);
            i = i + 1;
        }
        proof {
            lemma_kept_after_filter(
                self.notifications@,
                flags@,
                |n: Notification| n.notification_type != notification_type,
            );
        }
        let _ = self.drop_flagged(&flags);
    }

    /// The notifications, oldest first.
    pub fn notifications(&self) -> (s: &[Notification])
        ensures
            s@ == self@.list,
            s@.len() <= self@.max,
    {
        proof { use_type_invariant(self); }
        self.notifications.as_slice()
    }

    /// Removes the notifications flagged in `expired` (one flag per notification,
    /// in order) and returns their identifiers in order.
    pub fn remove_expired(&mut self, expired: &Vec<bool>) -> (ids: Vec<usize>)
        requires
            expired@.len() == old(self)@.list.len(),
        ensures
            final(self)@.list == kept_after(old(self)@.list, expired@),
            ids@ == expired_ids(old(self)@.list, expired@),
            final(self)@.next_id == old(self)@.next_id,
            final(self)@.max == old(self)@.max,
    {
        self.drop_flagged(expired)
    }

    /// Removes the notifications that are due (see `dismiss_due`), given the time
    /// elapsed since each was made (`elapsed[i]` for notification `i`), and returns
    /// their identifiers in order.
    pub fn update_with_elapsed(&mut self, elapsed: &Vec<std::time::Duration>) -> (ids: Vec<usize>)
        requires
            elapsed@.len() == old(self)@.list.len(),
        ensures
            final(self)@.list == kept_after(old(self)@.list, due_flags(old(self)@.list, elapsed@)),
            ids@ == expired_ids(old(self)@.list, due_flags(old(self)@.list, elapsed@)),
            final(self)@.next_id == old(self)@.next_id,
            final(self)@.max == old(self)@.max,
    {
        let mut flags: Vec<bool> = Vec::new();
        let mut i: usize = 0;
        while i < self.notifications.len()
            invariant
                i <= self.notifications@.len(),
                elapsed@.len() == self.notifications@.len(),
                flags@.len() == i,
                forall|j: int| 0 <= j < i ==> flags@[j] == dismiss_due(
                    self.notifications@[j].auto_dismiss_duration,
                    elapsed@[j],
                ),
            decreases self.notifications@.len() - i,
        {
            flags.push(self.notifications[i].expired_after(elapsed[i]));
            i = i + 1;
        }
        assert(flags@ =~= due_flags(self@.list, elapsed@));
        self.drop_flagged(&flags)
    }

    /// Removes the notifications whose delay has passed, reading the clock once per
    /// notification, and returns their identifiers in order: the rule of
    /// `update_with_elapsed` applied to the times read. Persistent notifications always
    /// stay; those with a zero delay always go.
    pub fn update(&mut self) -> (ids: Vec<usize>)
        ensures
            exists|elapsed: Seq<std::time::Duration>|
                {
                    &&& elapsed.len() == old(self)@.list.len()
                    &&& final(self)@.list == kept_after(old(self)@.list, due_flags(old(self)@.list, elapsed))
                    &&& ids@ == expired_ids(old(self)@.list, due_flags(old(self)@.list, elapsed))
                },
            final(self)@.next_id == old(self)@.next_id,
            final(self)@.max == old(self)@.max,
    {
        let mut elapsed: Vec<std::time::Duration> = Vec::new();
        let mut i: usize = 0;
        while i < self.notifications.len()
            invariant
                i <= self.notifications@.len(),
                elapsed@.len() == i,
            decreases self.notifications@.len() - i,
        {
            elapsed.push(elapsed_since(&self.notifications[i].created_at));
            i = i + 1;
        }
        self.update_with_elapsed(&elapsed)
    }

    /// Keeps the notifications not flagged, in order; returns the flagged ones' identifiers.
    fn drop_flagged(&mut self, flags: &Vec<bool>) -> (ids: Vec<usize>)
        requires
            flags@.len() == old(self)@.list.len(),
        ensures
            final(self)@.list == kept_after(old(self)@.list, flags@),
            ids@ == expired_ids(old(self)@.list, flags@),
            final(self)@.next_id == old(self)@.next_id,
            final(self)@.max == old(self)@.max,
    {
        proof { use_type_invariant(&*self); }
        let mut list: Vec<Notification> = Vec::new();
        std::mem::swap(&mut list, &mut self.notifications);
        let ghost old_list = list@;
        let n = list.len();
        let mut kept: Vec<Notification> = Vec::new();
        let mut ids: Vec<usize> = Vec::new();
        let mut k: usize = 0;
        while k < n
            invariant
                n == old_list.len(),
                n == flags@.len(),
                k <= n,
                list@ == old_list.skip(k as int),
                kept@ == kept_after(old_list.take(k as int), flags@.take(k as int)),
                ids@ == expired_ids(old_list.take(k as int), flags@.take(k as int)),
            decreases n - k,
        {
            let item = list.remove(0);
            proof {
                assert(item == old_list[k as int]);
                assert(old_list.take(k + 1).drop_last() =~= old_list.take(k as int));
                assert(flags@.take(k + 1).drop_last() =~= flags@.take(k as int));
                assert(old_list.skip(k + 1) =~= old_list.skip(k as int).remove(0));
            }
            if flags[k] {
                ids.push(item.id);
            } else {
                kept.push(item);
            }
            k = k + 1;
        }
        proof {
            assert(old_list.take(n as int) =~= old_list);
            assert(flags@.take(n as int) =~= flags@);
            lemma_kept_after_len(old_list, flags@);
        }
        self.notifications = kept;
        ids
    }

    /// Adds an error notification made from `error` (see `Notification::from_error`),
    /// with the counter as identifier (the counter then moves on).
    pub fn add_error(&mut self, error: AppError)
        requires
            old(self)@.max > 0,
            old(self)@.next_id < usize::MAX,
        ensures
            exists|n: Notification|
                {
                    &&& n.id == 0
                    &&& n.message@ == error.user_message@
                    &&& error.technical_message@ != error.user_message@ ==> (n.details matches Some(d)
                        && d@ == error.technical_message@)
                    &&& error.technical_message@ == error.user_message@ ==> n.details is None
                    &&& n.notification_type == notification_type_of(error.error_type)
                    &&& n.created_at == error.timestamp
                    &&& n.auto_dismiss_duration is None
                    &&& n.source == error.source
                    &&& final(self)@ == after_add(old(self)@, n)
                },
            final(self)@.list.last().id == old(self)@.next_id,
            final(self)@.next_id == old(self)@.next_id + 1,
            final(self)@.list.len() <= final(self)@.max,
    {
        let notification = Notification::from_error(0, error);
        self.add(notification);
    }

    /// Adds a success notification dismissed after 3 seconds, with the counter as identifier (the
    /// counter then moves on).
    pub fn add_success(&mut self, message: String)
        requires
            old(self)@.max > 0,
            old(self)@.next_id < usize::MAX,
        ensures
            exists|n: Notification|
                {
                    &&& n.id == 0
                    &&& n.message == message
                    &&& n.details is None
                    &&& n.notification_type == NotificationType::Success
                    &&& n.auto_dismiss_duration == Some(secs_duration(3))
                    &&& n.source is None
                    &&& final(self)@ == after_add(old(self)@, n)
                },
            final(self)@.list.last().id == old(self)@.next_id,
            final(self)@.next_id == old(self)@.next_id + 1,
            final(self)@.list.len() <= final(self)@.max,
    {
        let notification = Notification::new(0, message, NotificationType::Success)
            .with_auto_dismiss(duration_from_secs(3));
        self.add(notification);
    }

    /// Adds a warning notification dismissed after 5 seconds, with the counter as identifier (the
    /// counter then moves on).
    pub fn add_warning(&mut self, message: String)
        requires
            old(self)@.max > 0,
            old(self)@.next_id < usize::MAX,
        ensures
            exists|n: Notification|
                {
                    &&& n.id == 0
                    &&& n.message == message
                    &&& n.details is None
                    &&& n.notification_type == NotificationType::Warning
                    &&& n.auto_dismiss_duration == Some(secs_duration(5))
                    &&& n.source is None
                    &&& final(self)@ == after_add(old(self)@, n)
                },
            final(self)@.list.last().id == old(self)@.next_id,
            final(self)@.next_id == old(self)@.next_id + 1,
            final(self)@.list.len() <= final(self)@.max,
    {
        let notification = Notification::new(0, message, NotificationType::Warning)
            .with_auto_dismiss(duration_from_secs(5));
        self.add(notification);
    }

    /// Adds an information notification dismissed after 4 seconds, with the counter as identifier (the
    /// counter then moves on).
    pub fn add_info(&mut self, message: String)
        requires
            old(self)@.max > 0,
            old(self)@.next_id < usize::MAX,
        ensures
            exists|n: Notification|
                {
                    &&& n.id == 0
                    &&& n.message == message
                    &&& n.details is None
                    &&& n.notification_type == NotificationType::Info
                    &&& n.auto_dismiss_duration == Some(secs_duration(4))
                    &&& n.source is None
                    &&& final(self)@ == after_add(old(self)@, n)
                },
            final(self)@.list.last().id == old(self)@.next_id,
            final(self)@.next_id == old(self)@.next_id + 1,
            final(self)@.list.len() <= final(self)@.max,
    {
        let notification = Notification::new(0, message, NotificationType::Info)
            .with_auto_dismiss(duration_from_secs(4));
        self.add(notification);
    }
}

/// Dropping flagged notifications never lengthens the list.
pub proof fn lemma_kept_after_len(list: Seq<Notification>, flags: Seq<bool>)
    ensures
        kept_after(list, flags).len() <= list.len(),
    decreases list.len(),
{
    if list.len() > 0 && flags.len() == list.len() {
        lemma_kept_after_len(list.drop_last(), flags.drop_last());
    }
}

/// Dropping the notifications flagged where `keep` fails is filtering by `keep`.
pub proof fn lemma_kept_after_filter(
    list: Seq<Notification>,
    flags: Seq<bool>,
    keep: spec_fn(Notification) -> bool,
)
    requires
        flags.len() == list.len(),
        forall|i: int| 0 <= i < list.len() ==> flags[i] == !keep(list[i]),
    ensures
        kept_after(list, flags) == list.filter(keep),
    decreases list.len(),
{
    reveal(Seq::filter);
    if list.len() > 0 {
        lemma_kept_after_filter(list.drop_last(), flags.drop_last(), keep);
    }
}

impl Default for NotificationManager {
    /// An empty manager that keeps at most five notifications.
    fn default() -> (m: Self)
        ensures
            m@.list.len() == 0,
            m@.next_id == 0,
            m@.max == 5,
    {
        NotificationManager::new()
    }
}

impl Clone for NotificationManager {
    /// A manager with clones of the same notifications, counter and limit.
    fn clone(&self) -> (c: Self)
        ensures
            c@.list.len() == self@.list.len(),
            forall|i: int| 0 <= i < c@.list.len() ==> same_notification(#[trigger] c@.list[i], self@.list[i]),
            c@.next_id == self@.next_id,
            c@.max == self@.max,
    {
        proof { use_type_invariant(self); }
        let mut list: Vec<Notification> = Vec::new();
        let mut i: usize = 0;
        while i < self.notifications.len()
            invariant
                i <= self.notifications@.len(),
                list@.len() == i,
                forall|j: int| 0 <= j < i ==> same_notification(#[trigger] list@[j], self.notifications@[j]),
            decreases self.notifications@.len() - i,
        {
            list.push(self.notifications[i].clone());
            i = i + 1;
        }
        NotificationManager {
            notifications: list,
            next_id: self.next_id,
            max_notifications: self.max_notifications,
        }
    }
}

} // verus!
