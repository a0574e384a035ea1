//! Forwarding the television manuscripts of a column's news lists to the
//! article server.

use vstd::prelude::*;

use crate::handler::get_tv_article::ArticleDetail;
use crate::handler::{ok_reply, ApiReply, Config, HandlerError};
use crate::pattern::{regex_error_message, regex_is_match, regex_match, regex_valid};
use crate::text::{decimal_spec, decimal_u128, split_char, split_spec};
use crate::handler::get_tv_newslists::TvNewsList;

verus! {

/// The handler that forwards television manuscripts.
pub struct PostTvArticles;

/// Its query: column, site and time window, each optional.
pub struct PostTvArticlesReq {
    pub column_id: Option<String>,
    pub site_id: Option<u32>,
    pub start_time: Option<String>,
    pub end_time: Option<String>,
}

/// What a forwarding run lists and under which site it files the manuscripts.
pub struct TvSyncPlan {
    pub column_id: String,
    pub site_id: u32,
    pub start_time: Option<String>,
    pub end_time: Option<String>,
}

impl PostTvArticles {
    /// The run for query `prms`: its column (default: the configured one),
    /// its site (default 0) and its time window.
    pub fn plan(cfg: &Config, prms: PostTvArticlesReq) -> (r: TvSyncPlan)
        ensures
            r.column_id == (match prms.column_id {
                Some(c) => c,
                None => cfg.tv_columnid,
            }),
            r.site_id == (match prms.site_id {
                Some(s) => s,
                None => 0,
            }),
            r.start_time == prms.start_time,
            r.end_time == prms.end_time,
    {
        let column_id = match prms.column_id {
            Some(c) => c,
            None => cfg.tv_columnid.clone(),
        };
        let site_id = match prms.site_id {
            Some(s) => s,
            None => 0,
        };
        TvSyncPlan { column_id, site_id, start_time: prms.start_time, end_time: prms.end_time }
    }

    /// The reply after a run, whatever happened to the manuscripts: success,
    /// empty message, an empty object as data.
    pub fn reply() -> (r: ApiReply<()>)
        ensures
            r.success,
            r.err_msg@ == ""@,
    {
        ok_reply("", ())
    }
}

/// The day of a news list's show date: the text before its first space.
pub fn show_day(showdate: &str) -> (r: String)
    ensures
        r@ == split_spec(showdate@, ' ')[0],
{
    let parts = split_char(showdate, ' ');
    proof {
        crate::text::lemma_split_shape(showdate@, ' ');
    }
    assert(parts.deep_view()[0] == parts@[0]@);
    parts[0].clone()
}

/// Whether a title passes the filter words, tried in order: `None` when a
/// word is no valid pattern before any word matched, `Some(false)` when a
/// word matches, `Some(true)` when none does.
pub open spec fn filter_outcome(words: Seq<String>, title: Seq<char>) -> Option<bool>
    decreases words.len(),
{
    if words.len() == 0 {
        Some(true)
    } else if !regex_valid(words[0]@) {
        None
    } else if regex_match(words[0]@, title) {
        Some(false)
    } else {
        filter_outcome(words.drop_first(), title)
    }
}

/// Whether `title` is forwarded: no filter word, read as a regular
/// expression, matches it. An invalid filter word met before any match is an
/// error.
pub fn filter_title(title: &str, filter_words: &[String]) -> (r: Result<bool, HandlerError>)
    ensures
        match filter_outcome(filter_words@, title@) {
            Some(b) => r == Ok::<bool, HandlerError>(b),
            None => r matches Err(HandlerError::Regex(_)),
        },
{
    let mut i: usize = 0;
    assert(filter_words@.skip(0) =~= filter_words@);
    while i < filter_words.len()
        invariant
            i <= filter_words@.len(),
            filter_outcome(filter_words@, title@) == filter_outcome(
                filter_words@.skip(i as int),
                title@,
            ),
        decreases filter_words.len() - i,
    {
        assert(filter_words@.skip(i as int)[0] == filter_words@[i as int]);
        assert(filter_words@.skip(i as int).drop_first() =~= filter_words@.skip(i + 1));
        match regex_is_match(filter_words[i].as_str(), title) {
            Err(e) => {
                return Err(HandlerError::Regex(regex_error_message(&e)));
            },
            Ok(true) => {
                return Ok(false);
            },
            Ok(false) => {},
        }
        i += 1;
    }
    Ok(true)
}

/// Whether `b` is manuscript `a` scheduled with duration `video_time` on day
/// `show_day`.
pub open spec fn is_scheduled(a: ArticleDetail, b: ArticleDetail, video_time: u64, show_day: String) -> bool {
    &&& b.id == a.id
    &&& b.title == a.title
    &&& b.content == a.content
    &&& b.html_content == a.html_content
    &&& b.author == a.author
    &&& b.author_codes == a.author_codes
    &&& b.photo_person == a.photo_person
    &&& b.photo_person_codes == a.photo_person_codes
    &&& b.updated_by == a.updated_by
    &&& b.colunm_name == a.colunm_name
    &&& b.show_date == a.show_date
    &&& b.num_without_space == a.num_without_space
    &&& b.num_with_space == a.num_with_space
    &&& b.video_time == video_time
    &&& b.show_date_str == show_day
}

/// A fetched manuscript made ready to forward: `None` when a filter word
/// matches its title, otherwise the manuscript with the duration from the
/// news list and the news list's day.
pub fn prepare_tv_article(
    article: ArticleDetail,
    video_time: u64,
    show_day: String,
    filter_words: &[String],
) -> (r: Result<Option<ArticleDetail>, HandlerError>)
    ensures
        match filter_outcome(filter_words@, article.title@) {
            None => r matches Err(HandlerError::Regex(_)),
            Some(false) => r matches Ok(None),
            Some(true) => r matches Ok(Some(b)) && is_scheduled(article, b, video_time, show_day),
        },
{
    if filter_title(article.title.as_str(), filter_words)? {
        let mut article = article;
        article.video_time = video_time;
        article.show_date_str = show_day;
        Ok(Some(article))
    } else {
        Ok(None)
    }
}


// ---------------------------------------------------------------------------
// A forwarding run, step by step
// ---------------------------------------------------------------------------

/// Where a forwarding run stands: what it waits for.
pub enum TvPhase {
    Start,
    AwaitLists,
    AwaitDetail,
    AwaitArticle,
    AwaitPost,
    AwaitScore,
    Finished,
}

/// What a forwarding run asks of its environment next.
pub enum TvSyncAction {
    /// List the news lists of the plan's column and window.
    FetchNewsLists,
    /// Read the news list with this id in detail, with its manuscripts.
    FetchDetail(String),
    /// Read the manuscript with this id.
    FetchArticle(u64),
    /// Post the prepared manuscript, `TvSync::article`.
    PostArticle,
    /// Post the score of the prepared manuscript, stored under this id.
    PostScore(u32),
    /// Answer the request.
    Reply,
}

/// What the environment reports back; a failure carries its message.
pub enum TvSyncEvent {
    Started,
    NewsLists(Result<Vec<TvNewsList>, String>),
    Detail(Result<Vec<(u64, u64)>, String>),
    Article(Result<ArticleDetail, String>),
    Posted(Result<u32, String>),
    Scored(Result<(), String>),
}

/// A forwarding run: the news lists, the current list and its day, the
/// manuscripts it schedules, the current one, and the prepared manuscript.
pub struct TvSync {
    pub plan: TvSyncPlan,
    pub filter_words: Vec<String>,
    pub phase: TvPhase,
    pub lists: Vec<TvNewsList>,
    pub list_idx: usize,
    pub day: String,
    pub docids: Vec<(u64, u64)>,
    pub doc_idx: usize,
    pub article: Option<ArticleDetail>,
}

/// The action of a step and the lines it logs.
pub struct TvStep {
    pub action: TvSyncAction,
    pub log: Vec<String>,
}

/// Whether `s` is consistent: the current list and manuscript exist while
/// the run works on them, the day is that of the current list, and a
/// prepared manuscript exists while it is posted.
pub open spec fn tv_sync_wf(s: TvSync) -> bool {
    &&& s.list_idx <= s.lists@.len()
    &&& s.doc_idx <= s.docids@.len()
    &&& s.phase is AwaitDetail ==> s.list_idx < s.lists@.len()
    &&& (s.phase is AwaitArticle || s.phase is AwaitPost || s.phase is AwaitScore) ==> (s.list_idx
        < s.lists@.len() && s.doc_idx < s.docids@.len())
    &&& (s.phase is AwaitPost || s.phase is AwaitScore) ==> s.article is Some
    &&& (s.phase is AwaitDetail || s.phase is AwaitArticle || s.phase is AwaitPost || s.phase is AwaitScore)
        ==> s.day@ == split_spec(s.lists@[s.list_idx as int].showdate@, ' ')[0]
}

/// Whether `e` is the report that a run in phase `p` waits for.
pub open spec fn tv_expects(p: TvPhase, e: TvSyncEvent) -> bool {
    match p {
        TvPhase::Start => e is Started,
        TvPhase::AwaitLists => e is NewsLists,
        TvPhase::AwaitDetail => e is Detail,
        TvPhase::AwaitArticle => e is Article,
        TvPhase::AwaitPost => e is Posted,
        TvPhase::AwaitScore => e is Scored,
        TvPhase::Finished => false,
    }
}

/// The run `s` goes on with list `k`: it reads that list's detail, with the
/// day of its show date, or answers when no list is left.
pub open spec fn at_list(s: TvSync, action: TvSyncAction, k: int) -> bool {
    if k < s.lists@.len() {
        &&& s.phase is AwaitDetail
        &&& s.list_idx == k
        &&& s.day@ == split_spec(s.lists@[k].showdate@, ' ')[0]
        &&& action matches TvSyncAction::FetchDetail(id) && id == s.lists@[k].id
    } else {
        s.phase is Finished && action is Reply
    }
}

/// The run `s`, on list `list_k`, goes on with its manuscript `doc_k`, or
/// with the next list when none is left.
pub open spec fn at_doc(s: TvSync, action: TvSyncAction, list_k: int, doc_k: int) -> bool {
    if doc_k < s.docids@.len() {
        &&& s.phase is AwaitArticle
        &&& s.list_idx == list_k
        &&& s.doc_idx == doc_k
        &&& action == TvSyncAction::FetchArticle(s.docids@[doc_k].0)
    } else {
        at_list(s, action, list_k + 1)
    }
}

/// The log is the single line `line`.
pub open spec fn logs(log: Seq<String>, line: Seq<char>) -> bool {
    log.len() == 1 && log[0]@ == line
}

/// How far a run is from its end, compared lexicographically: whether the
/// lists are still to come, the lists left, whether a detail is awaited, the
/// manuscripts left of the current list, and the stage of the current one.
pub open spec fn tv_rank(s: TvSync) -> (nat, nat, nat, nat, nat) {
    let in_doc = s.phase is AwaitArticle || s.phase is AwaitPost || s.phase is AwaitScore;
    (
        if s.phase is Start {
            2
        } else if s.phase is AwaitLists {
            1
        } else {
            0
        },
        if s.phase is Start || s.phase is AwaitLists || s.phase is Finished {
            0
        } else {
            (s.lists@.len() - s.list_idx) as nat
        },
        if s.phase is AwaitDetail {
            1
        } else {
            0
        },
        if in_doc {
            (s.docids@.len() - s.doc_idx) as nat
        } else {
            0
        },
        if s.phase is AwaitArticle {
            2
        } else if s.phase is AwaitPost {
            1
        } else {
            0
        },
    )
}

/// Lexicographic order on ranks.
pub open spec fn rank_lt(a: (nat, nat, nat, nat, nat), b: (nat, nat, nat, nat, nat)) -> bool {
    ||| a.0 < b.0
    ||| a.0 == b.0 && a.1 < b.1
    ||| a.0 == b.0 && a.1 == b.1 && a.2 < b.2
    ||| a.0 == b.0 && a.1 == b.1 && a.2 == b.2 && a.3 < b.3
    ||| a.0 == b.0 && a.1 == b.1 && a.2 == b.2 && a.3 == b.3 && a.4 < b.4
}

fn log_line(prefix: &str, msg: &str) -> (r: Vec<String>)
    ensures
        logs(r@, prefix@ + msg@),
{
    let mut v: Vec<String> = Vec::new();
    v.push(crate::text::concat2(prefix, msg));
    v
}

fn one_line(line: &str) -> (r: Vec<String>)
    ensures
        logs(r@, line@),
{
    let mut v: Vec<String> = Vec::new();
    v.push(String::from_str(line));
    v
}

/// The debug form of a scheduled manuscript, `(docid, seconds)`.
pub open spec fn docid_text(d: (u64, u64)) -> Seq<char> {
    "("@ + decimal_spec(d.0 as nat) + ", "@ + decimal_spec(d.1 as nat) + ")"@
}

/// What a step of run `s` does on report `e`, giving `r` and the run `t`.
pub open spec fn tv_event_outcome(s: TvSync, e: TvSyncEvent, r: Result<TvStep, HandlerError>, t: TvSync) -> bool {
    match e {
        TvSyncEvent::Started => r matches Ok(st) && st.action is FetchNewsLists
            && st.log@.len() == 0 && t.phase is AwaitLists,
        TvSyncEvent::NewsLists(Err(e)) => r matches Ok(st) && st.action is Reply && logs(
            st.log@,
            "get_tv_newslists Error: "@ + e@,
        ) && t.phase is Finished,
        TvSyncEvent::NewsLists(Ok(ls)) => r matches Ok(st) && st.log@.len() == 0
            && t.lists == ls && at_list(t, st.action, 0),
        TvSyncEvent::Detail(Err(e)) => r matches Ok(st) && logs(
            st.log@,
            "get_tv_newslist_detail Error: "@ + e@,
        ) && t.lists == s.lists && at_list(
            t,
            st.action,
            s.list_idx + 1,
        ),
        TvSyncEvent::Detail(Ok(ids)) => r matches Ok(st) && st.log@.len() == 0
            && t.lists == s.lists && t.docids == ids
            && at_doc(
            t,
            st.action,
            s.list_idx as int,
            0,
        ),
        TvSyncEvent::Article(Err(e)) => r matches Ok(st) && st.log@.len() == 2
            && st.log@[0]@ == "get_tv_article Error: "@ + e@ && st.log@[1]@ == "article is "@
            + docid_text(s.docids@[s.doc_idx as int])
            && t.lists == s.lists && t.docids
            == s.docids && at_doc(
            t,
            st.action,
            s.list_idx as int,
            s.doc_idx + 1,
        ),
        TvSyncEvent::Article(Ok(a)) => match filter_outcome(s.filter_words@, a.title@) {
            None => r matches Err(HandlerError::Regex(_)),
            Some(false) => r matches Ok(st) && st.log@.len() == 0 && t.lists
                == s.lists && t.docids == s.docids && at_doc(
                t,
                st.action,
                s.list_idx as int,
                s.doc_idx + 1,
            ),
            Some(true) => r matches Ok(st) && st.log@.len() == 0 && st.action is PostArticle
                && t.phase is AwaitPost && t.lists == s.lists
                && t.docids == s.docids && t.list_idx
                == s.list_idx && t.doc_idx == s.doc_idx
                && t.day == s.day && (t.article matches Some(b)
                && is_scheduled(
                a,
                b,
                s.docids@[s.doc_idx as int].1,
                s.day,
            )),
        },
        TvSyncEvent::Posted(Err(e)) => r matches Ok(st) && logs(
            st.log@,
            "post_tv_article Error: "@ + e@,
        ) && t.lists == s.lists && t.docids == s.docids
            && at_doc(t, st.action, s.list_idx as int, s.doc_idx + 1),
        TvSyncEvent::Posted(Ok(id)) => r matches Ok(st) && st.log@.len() == 0 && st.action
            == TvSyncAction::PostScore(id) && t.phase is AwaitScore
            && t.lists == s.lists && t.docids == s.docids
            && t.list_idx == s.list_idx && t.doc_idx
            == s.doc_idx && t.day == s.day && t.article
            == s.article,
        TvSyncEvent::Scored(res) => r matches Ok(st) && (match res {
            Ok(()) => logs(st.log@, "post_tv_score Success"@),
            Err(e) => logs(st.log@, "post_tv_score Error: "@ + e@),
        }) && t.lists == s.lists && t.docids == s.docids
            && at_doc(t, st.action, s.list_idx as int, s.doc_idx + 1),
    }
}

/// The contract of a step of run `s` on report `e`, giving `r` and the run
/// `t`: `t` is consistent, closer to the end when the step succeeds, keeps
/// the plan and the filter words, and is what the report calls for.
pub open spec fn tv_step_contract(s: TvSync, e: TvSyncEvent, r: Result<TvStep, HandlerError>, t: TvSync) -> bool {
    &&& tv_sync_wf(t)
    &&& r is Ok ==> rank_lt(tv_rank(t), tv_rank(s))
    &&& t.plan == s.plan
    &&& t.filter_words == s.filter_words
    &&& tv_event_outcome(s, e, r, t)
}

/// Whether every filter word is a valid regular expression.
pub open spec fn words_valid(words: Seq<String>) -> bool {
    forall|i: int| 0 <= i < words.len() ==> regex_valid(#[trigger] words[i]@)
}

/// Whether `e` reports a failed server call.
pub open spec fn tv_event_failed(e: TvSyncEvent) -> bool {
    match e {
        TvSyncEvent::Started => false,
        TvSyncEvent::NewsLists(res) => res is Err,
        TvSyncEvent::Detail(res) => res is Err,
        TvSyncEvent::Article(res) => res is Err,
        TvSyncEvent::Posted(res) => res is Err,
        TvSyncEvent::Scored(res) => res is Err,
    }
}

/// With valid filter words, every title is either forwarded or filtered out.
pub proof fn lemma_filter_decides(words: Seq<String>, title: Seq<char>)
    requires
        words_valid(words),
    ensures
        filter_outcome(words, title) is Some,
    decreases words.len(),
{
    if words.len() > 0 {
        assert(regex_valid(words[0]@));
        assert forall|i: int| 0 <= i < words.drop_first().len() implies regex_valid(
            #[trigger] words.drop_first()[i]@,
        ) by {
            assert(words.drop_first()[i] == words[i + 1]);
        }
        lemma_filter_decides(words.drop_first(), title);
    }
}

/// A forwarding run whose filter words are all valid patterns always ends in
/// an answer: whatever a server call reports, the step succeeds; a failed
/// call is logged and the run goes on with the next manuscript or list; the
/// run answers exactly when it has finished, and every step brings it closer
/// to that end. (The answer, `PostTvArticles::reply`, is success with an
/// empty message.)
pub proof fn lemma_tv_run_answers(s: TvSync, e: TvSyncEvent, r: Result<TvStep, HandlerError>, t: TvSync)
    requires
        tv_sync_wf(s),
        tv_expects(s.phase, e),
        words_valid(s.filter_words@),
        tv_step_contract(s, e, r, t),
    ensures
        r matches Ok(st) && (st.action is Reply <==> t.phase is Finished) && (tv_event_failed(e)
            ==> st.log@.len() >= 1),
        rank_lt(tv_rank(t), tv_rank(s)),
        tv_sync_wf(t),
        words_valid(t.filter_words@),
        !(t.phase is Start),
{
    if let TvSyncEvent::Article(Ok(a)) = e {
        lemma_filter_decides(s.filter_words@, a.title@);
    }
}

impl TvSync {
    /// A run of plan `plan`, filtering titles with `filter_words`, before its
    /// start.
    pub fn new(plan: TvSyncPlan, filter_words: Vec<String>) -> (r: TvSync)
        ensures
            r.phase is Start,
            r.plan == plan,
            r.filter_words == filter_words,
            r.lists@.len() == 0,
            r.docids@.len() == 0,
            r.article is None,
            tv_sync_wf(r),
    {
        TvSync {
            plan,
            filter_words,
            phase: TvPhase::Start,
            lists: Vec::new(),
            list_idx: 0,
            day: String::new(),
            docids: Vec::new(),
            doc_idx: 0,
            article: None,
        }
    }

    fn enter_list(&mut self, k: usize) -> (action: TvSyncAction)
        requires
            k <= old(self).lists@.len(),
            old(self).doc_idx <= old(self).docids@.len(),
        ensures
            at_list(*final(self), action, k as int),
            tv_sync_wf(*final(self)),
            final(self).lists == old(self).lists,
            final(self).docids == old(self).docids,
            final(self).filter_words == old(self).filter_words,
            final(self).plan == old(self).plan,
            final(self).article == old(self).article,
    {
        if k < self.lists.len() {
            self.list_idx = k;
            self.day = show_day(self.lists[k].showdate.as_str());
            self.phase = TvPhase::AwaitDetail;
            TvSyncAction::FetchDetail(self.lists[k].id.clone())
        } else {
            self.list_idx = k;
            self.phase = TvPhase::Finished;
            TvSyncAction::Reply
        }
    }

    fn enter_doc(&mut self, k: usize) -> (action: TvSyncAction)
        requires
            k <= old(self).docids@.len(),
            old(self).list_idx < old(self).lists@.len(),
            old(self).day@ == split_spec(old(self).lists@[old(self).list_idx as int].showdate@, ' ')[0],
        ensures
            at_doc(*final(self), action, old(self).list_idx as int, k as int),
            tv_sync_wf(*final(self)),
            final(self).lists == old(self).lists,
            final(self).docids == old(self).docids,
            final(self).filter_words == old(self).filter_words,
            final(self).plan == old(self).plan,
            k < old(self).docids@.len() ==> final(self).day == old(self).day,
            final(self).article == old(self).article,
    {
        if k < self.docids.len() {
            self.doc_idx = k;
            self.phase = TvPhase::AwaitArticle;
            TvSyncAction::FetchArticle(self.docids[k].0)
        } else {
            self.doc_idx = k;
            let n_lists = self.lists.len();
            assert(self.list_idx < n_lists);
            let next = self.list_idx + 1;
            self.enter_list(next)
        }
    }

    fn next_doc(&mut self) -> (action: TvSyncAction)
        requires
            old(self).doc_idx < old(self).docids@.len(),
            old(self).list_idx < old(self).lists@.len(),
            old(self).day@ == split_spec(old(self).lists@[old(self).list_idx as int].showdate@, ' ')[0],
        ensures
            at_doc(*final(self), action, old(self).list_idx as int, old(self).doc_idx + 1),
            tv_sync_wf(*final(self)),
            final(self).lists == old(self).lists,
            final(self).docids == old(self).docids,
            final(self).filter_words == old(self).filter_words,
            final(self).plan == old(self).plan,
            final(self).article == old(self).article,
    {
        let n_docs = self.docids.len();
        assert(self.doc_idx < n_docs);
        let next = self.doc_idx + 1;
        self.enter_doc(next)
    }

    /// One step of a forwarding run: it takes the report of the last action
    /// and says what to do next. Every failure of an upstream call is logged
    /// and the run goes on with the next manuscript or list; only an invalid
    /// filter word ends the run with an error. Every step brings the run
    /// closer to its end.
    pub fn step(&mut self, event: TvSyncEvent) -> (r: Result<TvStep, HandlerError>)
        requires
            tv_sync_wf(*old(self)),
            tv_expects(old(self).phase, event),
        ensures
            tv_step_contract(*old(self), event, r, *final(self)),
            words_valid(old(self).filter_words@) ==> r is Ok,
    {
        match event {
            TvSyncEvent::Started => {
                self.phase = TvPhase::AwaitLists;
                Ok(TvStep { action: TvSyncAction::FetchNewsLists, log: Vec::new() })
            },
            TvSyncEvent::NewsLists(Err(e)) => {
                self.phase = TvPhase::Finished;
                Ok(
                    TvStep {
                        action: TvSyncAction::Reply,
                        log: log_line("get_tv_newslists Error: ", e.as_str()),
                    },
                )
            },
            TvSyncEvent::NewsLists(Ok(ls)) => {
                self.lists = ls;
                self.list_idx = 0;
                self.docids = Vec::new();
                self.doc_idx = 0;
                let action = self.enter_list(0);
                Ok(TvStep { action, log: Vec::new() })
            },
            TvSyncEvent::Detail(Err(e)) => {
                let n_lists = self.lists.len();
                assert(self.list_idx < n_lists);
                let next = self.list_idx + 1;
                let action = self.enter_list(next);
                Ok(TvStep { action, log: log_line("get_tv_newslist_detail Error: ", e.as_str()) })
            },
            TvSyncEvent::Detail(Ok(ids)) => {
                self.docids = ids;
                self.doc_idx = 0;
                let action = self.enter_doc(0);
                Ok(TvStep { action, log: Vec::new() })
            },
            TvSyncEvent::Article(Err(e)) => {
                let d = self.docids[self.doc_idx];
                let mut log = log_line("get_tv_article Error: ", e.as_str());
                let mut shown = String::from_str("article is ");
                shown.append("(");
                shown.append(decimal_u128(d.0 as u128).as_str());
                shown.append(", ");
                shown.append(decimal_u128(d.1 as u128).as_str());
                shown.append(")");
                assert(shown@ =~= "article is "@ + docid_text(d));
                log.push(shown);
                let action = self.next_doc();
                Ok(TvStep { action, log })
            },
            TvSyncEvent::Article(Ok(a)) => {
                proof {
                    if words_valid(self.filter_words@) {
                        lemma_filter_decides(self.filter_words@, a.title@);
                    }
                }
                let secs = self.docids[self.doc_idx].1;
                match prepare_tv_article(a, secs, self.day.clone(), self.filter_words.as_slice())? {
                    Some(b) => {
                        self.article = Some(b);
                        self.phase = TvPhase::AwaitPost;
                        Ok(TvStep { action: TvSyncAction::PostArticle, log: Vec::new() })
                    },
                    None => {
                        let action = self.next_doc();
                        Ok(TvStep { action, log: Vec::new() })
                    },
                }
            },
            TvSyncEvent::Posted(Err(e)) => {
                let action = self.next_doc();
                Ok(TvStep { action, log: log_line("post_tv_article Error: ", e.as_str()) })
            },
            TvSyncEvent::Posted(Ok(id)) => {
                self.phase = TvPhase::AwaitScore;
                Ok(TvStep { action: TvSyncAction::PostScore(id), log: Vec::new() })
            },
            TvSyncEvent::Scored(res) => {
                let log = match res {
                    Ok(()) => one_line("post_tv_score Success"),
                    Err(e) => log_line("post_tv_score Error: ", e.as_str()),
                };
                let action = self.next_doc();
                Ok(TvStep { action, log })
            },
        }
    }
}

} // verus!
