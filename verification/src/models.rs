use vstd::prelude::*;

verus! {

/// A request recorded by a handler, as it is stored in the database.
pub struct HandlerEvent {
    pub handler: String,
    pub host: Option<String>,
    pub uri: Option<String>,
    pub src_ip: Option<String>,
    pub info: Option<String>,
    pub user_agent: Option<String>,
    pub x_forwarded_for: Option<String>,
    pub payload: Option<String>,
    pub details: Option<String>,
}

/// The abstract content of a recorded event.
pub struct EventView {
    pub handler: Seq<char>,
    pub host: Option<Seq<char>>,
    pub uri: Option<Seq<char>>,
    pub src_ip: Option<Seq<char>>,
    pub info: Option<Seq<char>>,
    pub user_agent: Option<Seq<char>>,
    pub x_forwarded_for: Option<Seq<char>>,
    pub payload: Option<Seq<char>>,
    pub details: Option<Seq<char>>,
}

impl View for HandlerEvent {
    type V = EventView;

    open spec fn view(&self) -> EventView {
        EventView {
            handler: self.handler@,
            host: self.host.deep_view(),
            uri: self.uri.deep_view(),
            src_ip: self.src_ip.deep_view(),
            info: self.info.deep_view(),
            user_agent: self.user_agent.deep_view(),
            x_forwarded_for: self.x_forwarded_for.deep_view(),
            payload: self.payload.deep_view(),
            details: self.details.deep_view(),
        }
    }
}

/// An event of `handler` with nothing else recorded.
pub open spec fn empty_event(handler: Seq<char>) -> EventView {
    EventView {
        handler,
        host: None,
        uri: None,
        src_ip: None,
        info: None,
        user_agent: None,
        x_forwarded_for: None,
        payload: None,
        details: None,
    }
}

impl HandlerEvent {
    /// An event of the handler named `handler`, with nothing else recorded.
    pub fn new(handler: &str) -> (e: Self)
        ensures
            e@ == empty_event(handler@),
    {
        HandlerEvent {
            handler: String::from_str(handler),
            host: None,
            uri: None,
            src_ip: None,
            info: None,
            user_agent: None,
            x_forwarded_for: None,
            payload: None,
            details: None,
        }
    }

    /// Records the `Host` header.
    pub fn set_host(self, host: Option<String>) -> (e: Self)
        ensures
            e@ == (EventView { host: host.deep_view(), ..self@ }),
    {
        HandlerEvent { host, ..self }
    }

    /// Records the request URI.
    pub fn set_uri(self, uri: String) -> (e: Self)
        ensures
            e@ == (EventView { uri: Some(uri@), ..self@ }),
    {
        HandlerEvent { uri: Some(uri), ..self }
    }

    /// Records the source address.
    pub fn set_src_ip(self, src_ip: Option<String>) -> (e: Self)
        ensures
            e@ == (EventView { src_ip: src_ip.deep_view(), ..self@ }),
    {
        HandlerEvent { src_ip, ..self }
    }

    /// Records free-form information about the request.
    pub fn set_info(self, info: Option<String>) -> (e: Self)
        ensures
            e@ == (EventView { info: info.deep_view(), ..self@ }),
    {
        HandlerEvent { info, ..self }
    }

    /// Records the `User-Agent` header.
    pub fn set_user_agent(self, user_agent: Option<String>) -> (e: Self)
        ensures
            e@ == (EventView { user_agent: user_agent.deep_view(), ..self@ }),
    {
        HandlerEvent { user_agent, ..self }
    }

    /// Records the `X-Forwarded-For` header.
    pub fn set_x_forwarded_for(self, x_forwarded_for: Option<String>) -> (e: Self)
        ensures
            e@ == (EventView { x_forwarded_for: x_forwarded_for.deep_view(), ..self@ }),
    {
        HandlerEvent { x_forwarded_for, ..self }
    }

    /// Records the request body.
    pub fn set_payload(self, payload: Option<String>) -> (e: Self)
        ensures
            e@ == (EventView { payload: payload.deep_view(), ..self@ }),
    {
        HandlerEvent { payload, ..self }
    }

    /// Records handler-specific details.
    pub fn set_details(self, details: Option<String>) -> (e: Self)
        ensures
            e@ == (EventView { details: details.deep_view(), ..self@ }),
    {
        HandlerEvent { details, ..self }
    }
}

} // verus!
