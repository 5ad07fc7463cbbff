//! HTTP/2 connection configuration: a pure data struct populated by a
//! builder and handed to the protocol engine above this layer. The
//! frame-ordering values it carries are modelled as plain data; the
//! engine consumes them, nothing here interprets them.

use vstd::prelude::*;

verus! {

/// The flow-control window size the protocol specification assigns
/// before any SETTINGS exchange.
pub const SPEC_WINDOW_SIZE: u32 = 65535;

/// Default connection-level flow-control window.
pub const DEFAULT_CONN_WINDOW_SIZE: u32 = 1024 * 1024 * 5;

/// Default stream-level flow-control window.
pub const DEFAULT_STREAM_WINDOW_SIZE: u32 = 1024 * 1024 * 2;

/// Default bound on locally initiated streams before the peer's
/// SETTINGS arrive.
pub const DEFAULT_INITIAL_MAX_SEND_STREAMS: usize = 100;

/// Default write buffer bound per stream.
pub const DEFAULT_MAX_SEND_BUF_SIZE: usize = 1024 * 1024;

/// A stream identifier.
#[derive(Clone, Copy, Debug, PartialEq, Eq, Structural)]
pub struct StreamId(pub u32);

/// The dependency and weight a HEADERS frame declares for its stream.
#[derive(Clone, Copy, Debug, PartialEq, Eq, Structural)]
pub struct StreamDependency {
    pub dependency_id: StreamId,
    pub weight: u8,
    pub is_exclusive: bool,
}

/// A pseudo-header field name.
#[derive(Clone, Copy, Debug, PartialEq, Eq, Structural)]
pub enum PseudoId {
    Method,
    Scheme,
    Authority,
    Path,
    Protocol,
}

/// The order pseudo-header fields take in outgoing HEADERS frames.
#[derive(Debug)]
pub struct PseudoOrder {
    pub ids: Vec<PseudoId>,
}

/// A settings parameter name.
#[derive(Clone, Copy, Debug, PartialEq, Eq, Structural)]
pub enum SettingId {
    HeaderTableSize,
    EnablePush,
    MaxConcurrentStreams,
    InitialWindowSize,
    MaxFrameSize,
    MaxHeaderListSize,
    EnableConnectProtocol,
    NoRfc7540Priorities,
}

/// One raw settings parameter, by wire identifier and value.
#[derive(Clone, Copy, Debug, PartialEq, Eq, Structural)]
pub struct Setting {
    pub id: u16,
    pub value: u32,
}

/// Experimental, reserved settings sent verbatim.
#[derive(Debug)]
pub struct ExperimentalSettings {
    pub settings: Vec<Setting>,
}

/// The order settings parameters take in the initial SETTINGS frame.
#[derive(Debug)]
pub struct SettingsOrder {
    pub ids: Vec<SettingId>,
}

/// One PRIORITY frame to send as part of the connection preface.
#[derive(Clone, Copy, Debug, PartialEq, Eq, Structural)]
pub struct Priority {
    pub stream_id: StreamId,
    pub dependency: StreamDependency,
}

/// The PRIORITY frames sent immediately after the connection stands.
#[derive(Debug)]
pub struct Priorities {
    pub list: Vec<Priority>,
}

/// Every parameter the protocol engine reads for one HTTP/2
/// connection.
#[derive(Debug)]
pub struct Config {
    pub adaptive_window: bool,
    pub initial_stream_window_size: u32,
    pub initial_conn_window_size: u32,
    pub initial_max_send_streams: usize,
    pub initial_stream_id: Option<u32>,
    pub max_frame_size: Option<u32>,
    pub max_header_list_size: Option<u32>,
    pub header_table_size: Option<u32>,
    pub max_concurrent_streams: Option<u32>,
    pub enable_push: Option<bool>,
    pub enable_connect_protocol: Option<bool>,
    pub no_rfc7540_priorities: Option<bool>,
    pub max_concurrent_reset_streams: Option<usize>,
    pub max_send_buffer_size: usize,
    pub max_pending_accept_reset_streams: Option<usize>,
    pub headers_stream_dependency: Option<StreamDependency>,
    pub headers_pseudo_order: Option<PseudoOrder>,
    pub experimental_settings: Option<ExperimentalSettings>,
    pub settings_order: Option<SettingsOrder>,
    pub priorities: Option<Priorities>,
}

/// The configuration before any builder call: fixed windows at their
/// defaults, everything optional unset.
pub open spec fn spec_default_config() -> Config {
    Config {
        adaptive_window: false,
        initial_stream_window_size: DEFAULT_STREAM_WINDOW_SIZE,
        initial_conn_window_size: DEFAULT_CONN_WINDOW_SIZE,
        initial_max_send_streams: DEFAULT_INITIAL_MAX_SEND_STREAMS,
        initial_stream_id: None,
        max_frame_size: None,
        max_header_list_size: None,
        header_table_size: None,
        max_concurrent_streams: None,
        enable_push: None,
        enable_connect_protocol: None,
        no_rfc7540_priorities: None,
        max_concurrent_reset_streams: None,
        max_send_buffer_size: DEFAULT_MAX_SEND_BUF_SIZE,
        max_pending_accept_reset_streams: None,
        headers_stream_dependency: None,
        headers_pseudo_order: None,
        experimental_settings: None,
        settings_order: None,
        priorities: None,
    }
}

impl core::default::Default for Config {
    fn default() -> (r: Config)
        ensures
            r == spec_default_config(),
    {
        Config {
            adaptive_window: false,
            initial_stream_window_size: DEFAULT_STREAM_WINDOW_SIZE,
            initial_conn_window_size: DEFAULT_CONN_WINDOW_SIZE,
            initial_max_send_streams: DEFAULT_INITIAL_MAX_SEND_STREAMS,
            initial_stream_id: None,
            max_frame_size: None,
            max_header_list_size: None,
            header_table_size: None,
            max_concurrent_streams: None,
            enable_push: None,
            enable_connect_protocol: None,
            no_rfc7540_priorities: None,
            max_concurrent_reset_streams: None,
            max_send_buffer_size: DEFAULT_MAX_SEND_BUF_SIZE,
            max_pending_accept_reset_streams: None,
            headers_stream_dependency: None,
            headers_pseudo_order: None,
            experimental_settings: None,
            settings_order: None,
            priorities: None,
        }
    }
}

/// Configuration for an HTTP/2 connection, as the builder leaves it.
#[derive(Debug)]
pub struct Http2Config {
    pub h2_builder: Config,
}

/// Builder for [`Http2Config`].
#[must_use]
#[derive(Debug)]
pub struct Http2ConfigBuilder {
    pub config: Http2Config,
}

impl Http2ConfigBuilder {
    /// Sets the stream-level flow-control window and leaves adaptive
    /// flow control behind; passing nothing does nothing.
    pub fn initial_stream_window_size(self, sz: Option<u32>) -> (r: Http2ConfigBuilder)
        ensures
            sz matches Some(v) ==> r == (Http2ConfigBuilder {
                config: Http2Config {
                    h2_builder: (Config {
                        adaptive_window: false,
                        initial_stream_window_size: v,
                        ..self.config.h2_builder
                    }),
                },
            }),
            sz is None ==> r == self,
    {
        let mut b = self;
        if let Some(v) = sz {
            b.config.h2_builder.adaptive_window = false;
            b.config.h2_builder.initial_stream_window_size = v;
        }
        b
    }

    /// Sets the connection-level flow-control window and leaves
    /// adaptive flow control behind; passing nothing does nothing.
    pub fn initial_connection_window_size(self, sz: Option<u32>) -> (r: Http2ConfigBuilder)
        ensures
            sz matches Some(v) ==> r == (Http2ConfigBuilder {
                config: Http2Config {
                    h2_builder: (Config {
                        adaptive_window: false,
                        initial_conn_window_size: v,
                        ..self.config.h2_builder
                    }),
                },
            }),
            sz is None ==> r == self,
    {
        let mut b = self;
        if let Some(v) = sz {
            b.config.h2_builder.adaptive_window = false;
            b.config.h2_builder.initial_conn_window_size = v;
        }
        b
    }

    /// Sets the initial bound on locally initiated streams, which the
    /// peer's SETTINGS frame later overwrites; passing nothing does
    /// nothing.
    pub fn initial_max_send_streams(self, initial: Option<usize>) -> (r: Http2ConfigBuilder)
        ensures
            initial matches Some(v) ==> r == (Http2ConfigBuilder {
                config: Http2Config {
                    h2_builder: (Config { initial_max_send_streams: v, ..self.config.h2_builder }),
                },
            }),
            initial is None ==> r == self,
    {
        let mut b = self;
        if let Some(v) = initial {
            b.config.h2_builder.initial_max_send_streams = v;
        }
        b
    }

    /// Sets the initial stream id for the connection.
    pub fn initial_stream_id(self, id: Option<u32>) -> (r: Http2ConfigBuilder)
        ensures
            r == (Http2ConfigBuilder {
                config: Http2Config {
                    h2_builder: (Config { initial_stream_id: id, ..self.config.h2_builder }),
                },
            }),
    {
        let mut b = self;
        b.config.h2_builder.initial_stream_id = id;
        b
    }

    /// Switches adaptive flow control; enabling it resets both windows
    /// to the protocol's specified initial size.
    pub fn adaptive_window(self, enabled: bool) -> (r: Http2ConfigBuilder)
        ensures
            enabled ==> r == (Http2ConfigBuilder {
                config: Http2Config {
                    h2_builder: (Config {
                        adaptive_window: true,
                        initial_conn_window_size: SPEC_WINDOW_SIZE,
                        initial_stream_window_size: SPEC_WINDOW_SIZE,
                        ..self.config.h2_builder
                    }),
                },
            }),
            !enabled ==> r == (Http2ConfigBuilder {
                config: Http2Config {
                    h2_builder: (Config { adaptive_window: false, ..self.config.h2_builder }),
                },
            }),
    {
        let mut b = self;
        b.config.h2_builder.adaptive_window = enabled;
        if enabled {
            b.config.h2_builder.initial_conn_window_size = SPEC_WINDOW_SIZE;
            b.config.h2_builder.initial_stream_window_size = SPEC_WINDOW_SIZE;
        }
        b
    }

    /// Sets the maximum frame size.
    pub fn max_frame_size(self, sz: Option<u32>) -> (r: Http2ConfigBuilder)
        ensures
            r == (Http2ConfigBuilder {
                config: Http2Config {
                    h2_builder: (Config { max_frame_size: sz, ..self.config.h2_builder }),
                },
            }),
    {
        let mut b = self;
        b.config.h2_builder.max_frame_size = sz;
        b
    }

    /// Sets the maximum size of received header frames.
    pub fn max_header_list_size(self, max: u32) -> (r: Http2ConfigBuilder)
        ensures
            r == (Http2ConfigBuilder {
                config: Http2Config {
                    h2_builder: (Config {
                        max_header_list_size: Some(max),
                        ..self.config.h2_builder
                    }),
                },
            }),
    {
        let mut b = self;
        b.config.h2_builder.max_header_list_size = Some(max);
        b
    }

    /// Sets the header compression table size offered to the peer.
    pub fn header_table_size(self, size: Option<u32>) -> (r: Http2ConfigBuilder)
        ensures
            r == (Http2ConfigBuilder {
                config: Http2Config {
                    h2_builder: (Config { header_table_size: size, ..self.config.h2_builder }),
                },
            }),
    {
        let mut b = self;
        b.config.h2_builder.header_table_size = size;
        b
    }

    /// Sets the bound on streams the remote peer may initiate.
    pub fn max_concurrent_streams(self, max: Option<u32>) -> (r: Http2ConfigBuilder)
        ensures
            r == (Http2ConfigBuilder {
                config: Http2Config {
                    h2_builder: (Config { max_concurrent_streams: max, ..self.config.h2_builder }),
                },
            }),
    {
        let mut b = self;
        b.config.h2_builder.max_concurrent_streams = max;
        b
    }

    /// Switches the push feature.
    pub fn enable_push(self, opt: bool) -> (r: Http2ConfigBuilder)
        ensures
            r == (Http2ConfigBuilder {
                config: Http2Config {
                    h2_builder: (Config { enable_push: Some(opt), ..self.config.h2_builder }),
                },
            }),
    {
        let mut b = self;
        b.config.h2_builder.enable_push = Some(opt);
        b
    }

    /// Switches the extended CONNECT protocol.
    pub fn enable_connect_protocol(self, opt: bool) -> (r: Http2ConfigBuilder)
        ensures
            r == (Http2ConfigBuilder {
                config: Http2Config {
                    h2_builder: (Config {
                        enable_connect_protocol: Some(opt),
                        ..self.config.h2_builder
                    }),
                },
            }),
    {
        let mut b = self;
        b.config.h2_builder.enable_connect_protocol = Some(opt);
        b
    }

    /// Disables the older stream-priority scheme when set.
    pub fn no_rfc7540_priorities(self, opt: bool) -> (r: Http2ConfigBuilder)
        ensures
            r == (Http2ConfigBuilder {
                config: Http2Config {
                    h2_builder: (Config {
                        no_rfc7540_priorities: Some(opt),
                        ..self.config.h2_builder
                    }),
                },
            }),
    {
        let mut b = self;
        b.config.h2_builder.no_rfc7540_priorities = Some(opt);
        b
    }

    /// Bounds concurrent locally reset streams.
    pub fn max_concurrent_reset_streams(self, max: usize) -> (r: Http2ConfigBuilder)
        ensures
            r == (Http2ConfigBuilder {
                config: Http2Config {
                    h2_builder: (Config {
                        max_concurrent_reset_streams: Some(max),
                        ..self.config.h2_builder
                    }),
                },
            }),
    {
        let mut b = self;
        b.config.h2_builder.max_concurrent_reset_streams = Some(max);
        b
    }

    /// Sets the write buffer bound per stream; the engine stores it in
    /// a 32-bit field, so larger values are left to the caller to
    /// reject.
    pub fn max_send_buf_size(self, max: usize) -> (r: Http2ConfigBuilder)
        requires
            max <= u32::MAX as usize,
        ensures
            r == (Http2ConfigBuilder {
                config: Http2Config {
                    h2_builder: (Config { max_send_buffer_size: max, ..self.config.h2_builder }),
                },
            }),
    {
        let mut b = self;
        b.config.h2_builder.max_send_buffer_size = max;
        b
    }

    /// Bounds pending reset streams before the connection is torn
    /// down.
    pub fn max_pending_accept_reset_streams(self, max: Option<usize>) -> (r: Http2ConfigBuilder)
        ensures
            r == (Http2ConfigBuilder {
                config: Http2Config {
                    h2_builder: (Config {
                        max_pending_accept_reset_streams: max,
                        ..self.config.h2_builder
                    }),
                },
            }),
    {
        let mut b = self;
        b.config.h2_builder.max_pending_accept_reset_streams = max;
        b
    }

    /// Sets the dependency and weight of outgoing HEADERS frames.
    pub fn headers_stream_dependency(self, stream_dependency: Option<StreamDependency>) -> (r:
        Http2ConfigBuilder)
        ensures
            r == (Http2ConfigBuilder {
                config: Http2Config {
                    h2_builder: (Config {
                        headers_stream_dependency: stream_dependency,
                        ..self.config.h2_builder
                    }),
                },
            }),
    {
        let mut b = self;
        b.config.h2_builder.headers_stream_dependency = stream_dependency;
        b
    }

    /// Sets the pseudo-header order of outgoing HEADERS frames.
    pub fn headers_pseudo_order(self, headers_pseudo_order: Option<PseudoOrder>) -> (r:
        Http2ConfigBuilder)
        ensures
            r == (Http2ConfigBuilder {
                config: Http2Config {
                    h2_builder: (Config {
                        headers_pseudo_order,
                        ..self.config.h2_builder
                    }),
                },
            }),
    {
        let mut b = self;
        b.config.h2_builder.headers_pseudo_order = headers_pseudo_order;
        b
    }

    /// Sets reserved experimental settings, sent verbatim.
    pub fn experimental_settings(self, experimental_settings: Option<ExperimentalSettings>) -> (r:
        Http2ConfigBuilder)
        ensures
            r == (Http2ConfigBuilder {
                config: Http2Config {
                    h2_builder: (Config {
                        experimental_settings,
                        ..self.config.h2_builder
                    }),
                },
            }),
    {
        let mut b = self;
        b.config.h2_builder.experimental_settings = experimental_settings;
        b
    }

    /// Sets the parameter order of the initial SETTINGS frame.
    pub fn settings_order(self, settings_order: Option<SettingsOrder>) -> (r: Http2ConfigBuilder)
        ensures
            r == (Http2ConfigBuilder {
                config: Http2Config {
                    h2_builder: (Config {
                        settings_order,
                        ..self.config.h2_builder
                    }),
                },
            }),
    {
        let mut b = self;
        b.config.h2_builder.settings_order = settings_order;
        b
    }

    /// Sets the PRIORITY frames sent as part of the connection
    /// preface.
    pub fn priorities(self, priorities: Option<Priorities>) -> (r: Http2ConfigBuilder)
        ensures
            r == (Http2ConfigBuilder {
                config: Http2Config {
                    h2_builder: (Config {
                        priorities,
                        ..self.config.h2_builder
                    }),
                },
            }),
    {
        let mut b = self;
        b.config.h2_builder.priorities = priorities;
        b
    }

    /// Finishes the builder.
    pub fn build(self) -> (r: Http2Config)
        ensures
            r == self.config,
    {
        self.config
    }
}

impl Http2Config {
    /// Starts a builder from the default configuration.
    pub fn builder() -> (r: Http2ConfigBuilder)
        ensures
            r.config.h2_builder == spec_default_config(),
    {
        Http2ConfigBuilder { config: Http2Config { h2_builder: Config::default() } }
    }
}

} // verus!
