[package]
name = "shadowstrike"
version = "0.1.0"
edition = "2021"
publish = false

[dependencies]
rand = "0.8"
serde = { version = "1", features = ["derive"] }
serde_json = "1"
wasm-bindgen = "0.2"
js-sys = "0.3"
web-sys = { version = "0.3", features = ["CanvasRenderingContext2d", "HtmlCanvasElement", "Document", "Window", "Element", "CanvasGradient", "AudioContext", "BaseAudioContext", "AudioNode", "AudioParam", "AudioDestinationNode", "OscillatorNode", "OscillatorType", "GainNode", "AudioScheduledSourceNode", "MessageEvent", "WebSocket", "RtcConfiguration", "RtcDataChannel", "RtcDataChannelInit", "RtcDataChannelEvent", "RtcDataChannelState", "RtcPeerConnection", "RtcPeerConnectionIceEvent", "RtcIceCandidate", "RtcSdpType", "RtcSessionDescriptionInit", "CloseEvent", "ErrorEvent", "Event", "EventTarget", "console", "TextMetrics", "BinaryType"] }
tokio = { version = "1", features = ["full"] }
tokio-tungstenite = "0.21"
futures-util = "0.3"
tracing = "0.1"
tracing-subscriber = "0.3"
