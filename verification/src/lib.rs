mod duplex;
mod history;
mod numerals;
mod ports;
mod resolve;
mod session;

pub use duplex::frame_line;
pub use duplex::framed_view;
pub use duplex::lemma_timed_out_cycle_idempotent;
pub use duplex::line_step;
pub use duplex::receive_step;
pub use duplex::take_prefix;
pub use duplex::transmit_payload;
pub use duplex::transmit_step;
pub use duplex::LoopState;
pub use duplex::OperatorAction;
pub use duplex::OperatorEvent;
pub use duplex::ReceiveEffect;
pub use duplex::ReceiveOutcome;
pub use duplex::Session;
pub use duplex::TransmitOutcome;
pub use history::decode_log;
pub use history::encode_log;
pub use history::lemma_log_round_trip;
pub use history::lemma_log_view_injective;
pub use history::lemma_log_view_shape;
pub use history::log_view;
pub use history::separator_free;
pub use history::LOG_SEPARATOR;
pub use numerals::dec_digit;
pub use numerals::dec_rep;
pub use numerals::dec_string;
pub use numerals::hex4_rep;
pub use numerals::hex4_string;
pub use numerals::hex_digit;
pub use ports::count_message;
pub use ports::count_message_view;
pub use ports::detail_lines;
pub use ports::detail_lines_view;
pub use ports::opt_text_view;
pub use ports::ConnectionKind;
pub use ports::PortDescriptor;
pub use ports::UsbDetails;
pub use resolve::choose_port;
pub use resolve::ModemDescriptor;
pub use session::open_failure_message;
pub use session::open_failure_view;
pub use session::receive_buffer;
pub use session::DataBitsSetting;
pub use session::SessionConfig;
pub use session::StopBitsSetting;
pub use session::FIXED_BAUD_RATE;
pub use session::READ_TIMEOUT_MILLIS;
pub use session::RECEIVE_BUFFER_BYTES;
pub use session::RESPONSE_DELAY_MILLIS;
